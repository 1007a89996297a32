//! Instruction decoding: splitting a 16-bit instruction word into its
//! four 4-bit operand fields and the 12-bit immediate address.

use vstd::prelude::*;

verus! {

/// Operation family selector: bits 15-12 of the instruction word.
pub open spec fn op_o(word: u16) -> u8 {
    ((word >> 12) & 0xF) as u8
}

/// First register operand / operand group: bits 11-8.
pub open spec fn op_x(word: u16) -> u8 {
    ((word >> 8) & 0xF) as u8
}

/// Second register operand: bits 7-4.
pub open spec fn op_y(word: u16) -> u8 {
    ((word >> 4) & 0xF) as u8
}

/// Operation variant / third operand: bits 3-0.
pub open spec fn op_d(word: u16) -> u8 {
    (word & 0xF) as u8
}

/// 12-bit immediate address: bits 11-0.
pub open spec fn op_nnn(word: u16) -> u16 {
    word & 0x0FFF
}

/// Split an instruction word into `(o, x, y, d, nnn)` by fixed bit
/// positions. Pure function of the word; every 4-bit field is below 16
/// and the immediate address is below 4096.
pub fn decode(word: u16) -> (r: (u8, u8, u8, u8, u16))
    ensures
        r.0 == op_o(word),
        r.1 == op_x(word),
        r.2 == op_y(word),
        r.3 == op_d(word),
        r.4 == op_nnn(word),
        r.0 < 16,
        r.1 < 16,
        r.2 < 16,
        r.3 < 16,
        r.4 < 4096,
{
    proof {
        assert((word >> 12) & 0xF < 16) by (bit_vector);
        assert((word >> 8) & 0xF < 16) by (bit_vector);
        assert((word >> 4) & 0xF < 16) by (bit_vector);
        assert(word & 0xF < 16) by (bit_vector);
        assert(word & 0x0FFF < 4096) by (bit_vector);
    }
    let o = ((word >> 12) & 0xF) as u8;
    let x = ((word >> 8) & 0xF) as u8;
    let y = ((word >> 4) & 0xF) as u8;
    let d = (word & 0xF) as u8;
    let nnn = word & 0x0FFF;
    (o, x, y, d, nnn)
}

/// Decode correctness: each field equals the arithmetic slice of the word
/// at its fixed bit position, independent of the other fields, and the
/// four fields together reconstruct the word exactly (pure bit masking,
/// no cross-field interference).
pub proof fn lemma_decode_fields(word: u16)
    ensures
        op_o(word) as u16 == word / 4096,
        op_x(word) as u16 == (word / 256) % 16,
        op_y(word) as u16 == (word / 16) % 16,
        op_d(word) as u16 == word % 16,
        op_nnn(word) == word % 4096,
        word == ((op_o(word) as u16) << 12) | ((op_x(word) as u16) << 8)
            | ((op_y(word) as u16) << 4) | (op_d(word) as u16),
        op_nnn(word) == ((op_x(word) as u16) << 8) | ((op_y(word) as u16) << 4)
            | (op_d(word) as u16),
{
    assert((((word >> 12) & 0xF) as u8) as u16 == word / 4096) by (bit_vector);
    assert((((word >> 8) & 0xF) as u8) as u16 == (word / 256) % 16) by (bit_vector);
    assert((((word >> 4) & 0xF) as u8) as u16 == (word / 16) % 16) by (bit_vector);
    assert(((word & 0xF) as u8) as u16 == word % 16) by (bit_vector);
    assert(word & 0x0FFF == word % 4096) by (bit_vector);
    assert(word == ((((word >> 12) & 0xF) as u8 as u16) << 12)
        | ((((word >> 8) & 0xF) as u8 as u16) << 8)
        | ((((word >> 4) & 0xF) as u8 as u16) << 4)
        | ((word & 0xF) as u8 as u16)) by (bit_vector);
    assert(word & 0x0FFF == ((((word >> 8) & 0xF) as u8 as u16) << 8)
        | ((((word >> 4) & 0xF) as u8 as u16) << 4)
        | ((word & 0xF) as u8 as u16)) by (bit_vector);
}

} // verus!
