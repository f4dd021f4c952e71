//! Push-family classification: which opcodes carry immediate data bytes, and
//! how many. Immediate-bearing behaviour is exclusively the PUSH family
//! (bytes 0x60 through 0x7f), and the immediate length is derived
//! arithmetically from the byte value.

use vstd::prelude::*;

verus! {

/// True exactly when the byte lies in the PUSH1..=PUSH32 range.
pub open spec fn is_push_byte(b: u8) -> bool {
    0x60 <= b && b <= 0x7f
}

/// Number of immediate data bytes the opcode byte consumes from the stream:
/// `b - 0x5f` for the PUSH family (PUSH1 takes 1, PUSH32 takes 32), zero for
/// every other byte.
pub open spec fn push_immediate_len(b: u8) -> u8 {
    if is_push_byte(b) {
        (b - 0x5f) as u8
    } else {
        0
    }
}

/// An opcode value carried through decoding, wrapping the registry's opcode
/// type.
#[derive(Debug, Clone, Copy, PartialEq, Eq, Structural)]
pub struct OpCode(pub crate::opcodes::OpCode);

/// Dual representation of one stream element: either a byte kept as raw hex
/// text, or a decoded opcode.
#[derive(Debug)]
pub enum Byte {
    Hex(String),
    OpCode(OpCode),
}

impl OpCode {
    /// True exactly when this opcode is one of PUSH1..=PUSH32.
    pub fn is_push(&self) -> (r: bool)
        ensures
            r == is_push_byte(self.0.0),
    {
        let as_u8 = self.0.u8();

        as_u8 >= 96 && as_u8 < 128
    }

    /// The number of immediate bytes this opcode consumes: derived from the
    /// byte value for the PUSH family, zero for any other opcode (never
    /// fails on out-of-family input).
    pub fn push_size(&self) -> (r: u8)
        ensures
            r == push_immediate_len(self.0.0),
    {
        let as_u8 = self.0.u8();

        if as_u8 >= 96 && as_u8 < 128 {
            return as_u8 - 95;
        }

        0
    }
}

/// PUSH arithmetic, stated for every byte value: membership in the PUSH
/// family is exactly the range 0x60..=0x7f, a PUSH byte's immediate length is
/// `b - 0x5f`, and every other byte's immediate length is zero. The table and
/// the arithmetic derivation agree: every PUSH-family byte is a defined
/// opcode.
pub proof fn lemma_push_arithmetic(b: u8)
    ensures
        is_push_byte(b) <==> (0x60 <= b && b <= 0x7f),
        is_push_byte(b) ==> push_immediate_len(b) == b - 0x5f,
        !is_push_byte(b) ==> push_immediate_len(b) == 0,
        is_push_byte(b) ==> crate::opcodes::is_defined(b),
{
}

} // verus!
