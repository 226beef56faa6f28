use vstd::prelude::*;

verus! {

/// The 16-bit value whose upper byte is `high` and whose lower byte is `low`.
pub open spec fn spec_pair(high: u8, low: u8) -> u16 {
    (high as u16) << 8 | (low as u16)
}

#[verifier::when_used_as_spec(spec_pair)]
pub fn pair(high: u8, low: u8) -> (value: u16)
    ensures
        value == spec_pair(high, low),
{
    (high as u16) << 8 | (low as u16)
}

/// The upper byte of a 16-bit value.
pub open spec fn spec_high_byte(value: u16) -> u8 {
    (value >> 8) as u8
}

#[verifier::when_used_as_spec(spec_high_byte)]
pub fn high_byte(value: u16) -> (high: u8)
    ensures
        high == spec_high_byte(value),
{
    assert(value >> 8 < 0x100) by (bit_vector);
    (value >> 8) as u8
}

/// The lower byte of a 16-bit value.
pub open spec fn spec_low_byte(value: u16) -> u8 {
    (value & 0xFF) as u8
}

#[verifier::when_used_as_spec(spec_low_byte)]
pub fn low_byte(value: u16) -> (low: u8)
    ensures
        low == spec_low_byte(value),
{
    assert(value & 0xFF < 0x100) by (bit_vector);
    (value & 0xFF) as u8
}

/// A pair is 256 times its upper byte plus its lower byte.
pub proof fn lemma_pair_value(high: u8, low: u8)
    ensures
        pair(high, low) == high * 0x100 + low,
{
    assert((high as u16) << 8 | (low as u16) == high * 0x100 + low) by (bit_vector);
}

/// The two bytes of a value are its quotient and remainder by 256.
pub proof fn lemma_bytes_value(value: u16)
    ensures
        high_byte(value) == value / 0x100,
        low_byte(value) == value % 0x100,
{
    assert(value >> 8 == value / 0x100 && value & 0xFF == value % 0x100) by (bit_vector);
}

/// Splitting a value into its bytes and pairing them again gives the value
/// back, and the other way round.
pub proof fn lemma_pair_bytes(high: u8, low: u8, value: u16)
    ensures
        pair(high_byte(value), low_byte(value)) == value,
        high_byte(pair(high, low)) == high,
        low_byte(pair(high, low)) == low,
{
    lemma_bytes_value(value);
    lemma_pair_value(high_byte(value), low_byte(value));
    lemma_pair_value(high, low);
    lemma_bytes_value(pair(high, low));
}

} // verus!
