//! Binary coded decimal conversion used by the clock's registers.
use vstd::prelude::*;

verus! {

/// The decimal value of a BCD byte: the low nibble holds the units and bits 4 to 6
/// the tens; bit 7 is ignored.
pub open spec fn bcd_value(input: u8) -> u8 {
    (10 * ((input / 16) % 8) + input % 16) as u8
}

/// The BCD byte of a value: the tens shifted into the high nibble (keeping the low
/// eight bits of the shift) plus the units.
pub open spec fn bcd_byte(input: u8) -> u8 {
    (((input / 10) * 16) % 256 + input % 10) as u8
}

/// Convert a Binary Coded Decimal byte to its decimal value (only the lowest 7 bits).
pub fn decode_bcd(input: u8) -> (r: u8)
    ensures
        r == bcd_value(input),
        r == 10 * ((input >> 4) & 7) + (input & 0xf),
        r <= 85,
{
    let digits: u8 = input & 0xf;
    let tens: u8 = (input >> 4) & 0x7;
    assert(digits == input % 16 && tens == (input / 16) % 8) by (bit_vector)
        requires
            digits == input & 0xf,
            tens == (input >> 4) & 0x7,
    ;
    proof {
        lemma_bcd_value_digits(input);
    }
    10 * tens + digits
}

/// Convert a decimal value to Binary Coded Decimal.
pub fn encode_bcd(input: u8) -> (r: u8)
    ensures
        r == bcd_byte(input),
        input <= 159 ==> r == (input / 10) * 16 + input % 10,
{
    let digits: u8 = input % 10;
    let tens: u8 = input / 10;
    let tens: u8 = tens << 4;
    assert(tens == ((input / 10) * 16) % 256) by (bit_vector)
        requires
            tens == (input / 10) << 4,
    ;
    proof {
        if input <= 159 {
            lemma_bcd_byte_digits(input);
        }
    }
    tens + digits
}

/// Encoding a value of at most 79 and decoding the byte gives the value back.
pub proof fn lemma_decode_encode(value: u8)
    requires
        value <= 79,
    ensures
        bcd_value(bcd_byte(value)) == value,
        bcd_byte(value) < 0x80,
{
    let t = value / 10;
    let u = value % 10;
    assert(value == 10 * t + u && t <= 7 && u < 10);
    let b = t * 16 + u;
    assert(b / 16 == t && b % 16 == u && b < 0x80) by (nonlinear_arith)
        requires
            b == t * 16 + u,
            0 <= t <= 7,
            0 <= u < 10,
    ;
    assert(bcd_byte(value) == b);
}

/// Decoding a BCD byte (a units nibble below 10 and bit 7 clear) and encoding the value
/// gives the byte back.
pub proof fn lemma_encode_decode(byte: u8)
    requires
        byte % 16 < 10,
        byte < 0x80,
    ensures
        bcd_byte(bcd_value(byte)) == byte,
{
    let t = byte / 16;
    let u = byte % 16;
    assert(byte == 16 * t + u && t < 8);
    let v = 10 * t + u;
    assert(v / 10 == t && v % 10 == u) by (nonlinear_arith)
        requires
            v == 10 * t + u,
            0 <= t < 8,
            0 <= u < 10,
    ;
    assert(bcd_value(byte) == v);
}

/// Decoding takes the units from the low nibble and the tens from bits 4 to 6, digit by
/// digit, for every byte.
pub proof fn lemma_bcd_value_digits(input: u8)
    ensures
        bcd_value(input) == 10 * ((input >> 4) & 7) + (input & 0xf),
{
    assert(input & 0xf == input % 16 && (input >> 4) & 7 == (input / 16) % 8) by (bit_vector);
}

/// Encoding puts the tens into the high nibble and the units into the low nibble, for
/// every value whose tens fit in a nibble.
pub proof fn lemma_bcd_byte_digits(input: u8)
    requires
        input <= 159,
    ensures
        bcd_byte(input) == (input / 10) * 16 + input % 10,
        bcd_byte(input) / 16 == input / 10,
        bcd_byte(input) % 16 == input % 10,
{
    let t = input / 10;
    let u = input % 10;
    let b = t * 16 + u;
    assert(t <= 15 && u < 10);
    assert(b / 16 == t && b % 16 == u && b < 256) by (nonlinear_arith)
        requires
            b == t * 16 + u,
            0 <= t <= 15,
            0 <= u < 10,
    ;
    assert(bcd_byte(input) == b);
}

} // verus!
