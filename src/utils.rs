use vstd::prelude::*;

verus! {

/// The 16-bit value whose high byte is `msb` and whose low byte is `lsb`.
pub open spec fn word_of(msb: u8, lsb: u8) -> u16 {
    (msb as int * 256 + lsb as int) as u16
}

/// The high byte of a 16-bit value.
pub fn get_msb(value: &u16) -> (r: u8)
    ensures
        r == *value / 256,
{
    let v = *value;
    assert(((v & 0xFF00) >> 8) as u8 == v / 256) by (bit_vector);
    ((v & 0xFF00) >> 8) as u8
}

/// The low byte of a 16-bit value.
pub fn get_lsb(value: &u16) -> (r: u8)
    ensures
        r == *value % 256,
{
    let v = *value;
    assert((v & 0xFF) as u8 == v % 256) by (bit_vector);
    (v & 0xFF) as u8
}

/// Composes a 16-bit value from its high and low bytes.
pub fn get_u16(msb: u8, lsb: u8) -> (r: u16)
    ensures
        r == word_of(msb, lsb),
        r == msb as int * 256 + lsb as int,
{
    assert((((msb as u16) << 8) | lsb as u16) == msb as int * 256 + lsb as int) by (bit_vector);
    ((msb as u16) << 8) | lsb as u16
}

} // verus!
