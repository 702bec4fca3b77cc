use vote_tally::convert::{DataTypeError, DataTypesContract};

#[test]
fn test_u32_to_i128() {
    assert_eq!(DataTypesContract::u32_to_i128(100), 100_i128);
    assert_eq!(DataTypesContract::u32_to_i128(u32::MAX), u32::MAX as i128);
}

#[test]
fn test_i128_to_u32_success() {
    assert_eq!(DataTypesContract::i128_to_u32(100), Ok(100));
}

#[test]
fn test_i128_to_u32_negative() {
    assert_eq!(DataTypesContract::i128_to_u32(-1), Err(DataTypeError::InvalidIndex));
}

#[test]
fn test_i128_to_u32_too_large() {
    let too_large: i128 = (u32::MAX as i128) + 1;
    assert_eq!(DataTypesContract::i128_to_u32(too_large), Err(DataTypeError::InvalidIndex));
}

#[test]
fn widen_then_narrow_returns_the_input() {
    for value in [0u32, 1, 41, u32::MAX - 1, u32::MAX] {
        let wide = DataTypesContract::u32_to_i128(value);
        assert_eq!(DataTypesContract::i128_to_u32(wide), Ok(value));
    }
}

#[test]
fn narrow_rejects_the_extremes() {
    assert_eq!(DataTypesContract::i128_to_u32(i128::MIN), Err(DataTypeError::InvalidIndex));
    assert_eq!(DataTypesContract::i128_to_u32(i128::MAX), Err(DataTypeError::InvalidIndex));
}
