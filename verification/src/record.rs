//! The data handled by the tally: principals, choices, submission records,
//! and the host ledger position that accompanies every mutating call.

use vstd::prelude::*;

verus! {

/// Opaque identity of a submitter, unique per record.
#[derive(Clone, Copy, Debug, PartialEq, Eq, Structural)]
pub struct Principal {
    pub id: u64,
}

/// The two admissible ballot choices.
#[derive(Clone, Copy, Debug, PartialEq, Eq, Structural)]
pub enum Choice {
    Yes,
    No,
}

/// One accepted submission. Created exactly once per principal and never
/// mutated afterwards; only its expiration metadata may be touched.
#[derive(Clone, Copy, Debug, PartialEq, Eq, Structural)]
pub struct VoterRecord {
    pub voter: Principal,
    pub choice: Choice,
    pub votes: u64,
    pub timestamp: u64,
}

/// The host ledger's position when a call runs: the current ledger number
/// (the unit of the lifetime policy) and the current timestamp.
#[derive(Clone, Copy, Debug, PartialEq, Eq, Structural)]
pub struct LedgerInfo {
    pub sequence: u32,
    pub timestamp: u64,
}

/// A submission carries between one and five votes.
pub open spec fn valid_weight(votes: u64) -> bool {
    1 <= votes <= 5
}

/// The choice a piece of text stands for: exactly `"yes"` or `"no"`,
/// case-sensitively; anything else is no choice at all.
pub open spec fn parse_choice(s: Seq<char>) -> Option<Choice> {
    if s == "yes"@ {
        Some(Choice::Yes)
    } else if s == "no"@ {
        Some(Choice::No)
    } else {
        None
    }
}

} // verus!
