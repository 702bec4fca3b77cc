//! Integer conversion utilities, with the error type they report through.

use vstd::prelude::*;

verus! {

/// Errors of the data-handling utilities.
#[derive(Clone, Copy, Debug, PartialEq, Eq, Structural)]
pub enum DataTypeError {
    ValueNotFound,
    InvalidIndex,
    KeyNotFound,
    EmptyVector,
}

/// Owner of the conversion utilities.
pub struct DataTypesContract;

impl DataTypesContract {
    /// Widens a `u32` to an `i128`; always exact.
    pub fn u32_to_i128(value: u32) -> (r: i128)
        ensures
            r == value as i128,
    {
        value as i128
    }

    /// Narrows an `i128` to a `u32`, rejecting anything outside `u32`'s range.
    pub fn i128_to_u32(value: i128) -> (r: Result<u32, DataTypeError>)
        ensures
            0 <= value <= u32::MAX ==> (r matches Ok(v) && v == value),
            !(0 <= value <= u32::MAX) ==> r == Err::<u32, DataTypeError>(DataTypeError::InvalidIndex),
    {
        if value < 0 || value > u32::MAX as i128 {
            return Err(DataTypeError::InvalidIndex);
        }
        Ok(value as u32)
    }
}

} // verus!
