use vote_tally::record::{Choice, Principal, VoterRecord};
use vote_tally::store::{AggregateKey, AggregateTier, PrincipalTier};
use vote_tally::ttl::{MONTH_IN_LEDGERS, YEAR_IN_LEDGERS};

fn record_for(p: Principal) -> VoterRecord {
    VoterRecord { voter: p, choice: Choice::Yes, votes: 2, timestamp: 5 }
}

#[test]
fn aggregate_counters_start_absent() {
    let tier = AggregateTier::new();
    assert_eq!(tier.get(AggregateKey::YesVotes), None);
    assert_eq!(tier.get(AggregateKey::NoVotes), None);
    assert_eq!(tier.get(AggregateKey::TotalVotes), None);
    assert!(!tier.has(AggregateKey::YesVotes));
    assert_eq!(tier.lifetime(), 0);
}

#[test]
fn aggregate_set_touches_one_key_only() {
    let mut tier = AggregateTier::new();
    tier.set(AggregateKey::YesVotes, 7);
    assert_eq!(tier.get(AggregateKey::YesVotes), Some(7));
    assert!(tier.has(AggregateKey::YesVotes));
    assert_eq!(tier.get(AggregateKey::NoVotes), None);
    assert_eq!(tier.get(AggregateKey::TotalVotes), None);

    tier.set(AggregateKey::TotalVotes, 7);
    tier.set(AggregateKey::YesVotes, 9);
    assert_eq!(tier.get(AggregateKey::YesVotes), Some(9));
    assert_eq!(tier.get(AggregateKey::TotalVotes), Some(7));
}

#[test]
fn aggregate_remove_deletes_one_key_only() {
    let mut tier = AggregateTier::new();
    tier.set(AggregateKey::YesVotes, 1);
    tier.set(AggregateKey::NoVotes, 2);
    tier.remove(AggregateKey::YesVotes);
    assert_eq!(tier.get(AggregateKey::YesVotes), None);
    assert_eq!(tier.get(AggregateKey::NoVotes), Some(2));
}

#[test]
fn aggregate_lifetime_is_shared_and_extendable() {
    let mut tier = AggregateTier::new();
    tier.set(AggregateKey::NoVotes, 4);
    tier.extend_lifetime(50, MONTH_IN_LEDGERS, YEAR_IN_LEDGERS);
    assert_eq!(tier.lifetime(), 50 + YEAR_IN_LEDGERS);
    // The counters themselves are untouched by a lifetime extension.
    assert_eq!(tier.get(AggregateKey::NoVotes), Some(4));
}

#[test]
fn principal_tier_stores_and_returns_records() {
    let mut tier = PrincipalTier::new();
    let alice = Principal { id: 1 };
    assert_eq!(tier.get(alice), None);
    assert!(!tier.has(alice));

    tier.set(alice, record_for(alice), 30);
    assert!(tier.has(alice));
    assert_eq!(tier.get(alice), Some(record_for(alice)));
    // A freshly written record is due at the current ledger until extended.
    assert_eq!(tier.lifetime_of(alice), Some(30));
}

#[test]
fn principal_lifetimes_are_independent() {
    let mut tier = PrincipalTier::new();
    let alice = Principal { id: 1 };
    let bob = Principal { id: 2 };
    tier.set(alice, record_for(alice), 10);
    tier.set(bob, record_for(bob), 10);

    let found = tier.extend_lifetime(alice, 10, MONTH_IN_LEDGERS, YEAR_IN_LEDGERS);
    assert!(found);
    assert_eq!(tier.lifetime_of(alice), Some(10 + YEAR_IN_LEDGERS));
    assert_eq!(tier.lifetime_of(bob), Some(10));
}

#[test]
fn principal_remove_returns_the_record() {
    let mut tier = PrincipalTier::new();
    let alice = Principal { id: 1 };
    let bob = Principal { id: 2 };
    tier.set(alice, record_for(alice), 0);

    assert_eq!(tier.remove(alice), Some(record_for(alice)));
    assert_eq!(tier.remove(alice), None);
    assert_eq!(tier.remove(bob), None);
    assert!(!tier.has(alice));
}
