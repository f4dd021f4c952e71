//! The opcode registry: an immutable, total mapping from every byte value
//! 0–255 to either its canonical mnemonic or "undefined", together with the
//! `OpCode` value type built on it.

use vstd::prelude::*;

verus! {

/// True exactly for the byte values that carry an assigned instruction
/// meaning; every other byte is undefined.
pub open spec fn is_defined(b: u8) -> bool {
    b <= 0x0b
    || (0x10 <= b && b <= 0x1d)
    || b == 0x20
    || (0x30 <= b && b <= 0x48)
    || (0x50 <= b && b <= 0x5b)
    || (0x60 <= b && b <= 0xa4)
    || (0xf0 <= b && b <= 0xf5)
    || b == 0xfa
    || b == 0xfd
    || b == 0xfe
    || b == 0xff
}

/// Canonical mnemonic of a defined opcode byte; for an undefined byte this is
/// the fixed sentinel "unknown".
pub open spec fn mnemonic(b: u8) -> Seq<char> {
    if is_defined(b) {
        defined_mnemonic(b)
    } else {
        "unknown"@
    }
}

/// The 256-entry assignment itself, spelled out byte by byte; meaningful only
/// where `is_defined` holds (elsewhere it falls through to the sentinel).
pub open spec fn defined_mnemonic(b: u8) -> Seq<char> {
    match b {
        0x00 => "STOP"@,
        0x01 => "ADD"@,
        0x02 => "MUL"@,
        0x03 => "SUB"@,
        0x04 => "DIV"@,
        0x05 => "SDIV"@,
        0x06 => "MOD"@,
        0x07 => "SMOD"@,
        0x08 => "ADDMOD"@,
        0x09 => "MULMOD"@,
        0x0a => "EXP"@,
        0x0b => "SIGNEXTEND"@,
        0x10 => "LT"@,
        0x11 => "GT"@,
        0x12 => "SLT"@,
        0x13 => "SGT"@,
        0x14 => "EQ"@,
        0x15 => "ISZERO"@,
        0x16 => "AND"@,
        0x17 => "OR"@,
        0x18 => "XOR"@,
        0x19 => "NOT"@,
        0x1a => "BYTE"@,
        0x1b => "SHL"@,
        0x1c => "SHR"@,
        0x1d => "SAR"@,
        0x20 => "SHA3"@,
        0x30 => "ADDRESS"@,
        0x31 => "BALANCE"@,
        0x32 => "ORIGIN"@,
        0x33 => "CALLER"@,
        0x34 => "CALLVALUE"@,
        0x35 => "CALLDATALOAD"@,
        0x36 => "CALLDATASIZE"@,
        0x37 => "CALLDATACOPY"@,
        0x38 => "CODESIZE"@,
        0x39 => "CODECOPY"@,
        0x3a => "GASPRICE"@,
        0x3b => "EXTCODESIZE"@,
        0x3c => "EXTCODECOPY"@,
        0x3d => "RETURNDATASIZE"@,
        0x3e => "RETURNDATACOPY"@,
        0x3f => "EXTCODEHASH"@,
        0x40 => "BLOCKHASH"@,
        0x41 => "COINBASE"@,
        0x42 => "TIMESTAMP"@,
        0x43 => "NUMBER"@,
        0x44 => "DIFFICULTY"@,
        0x45 => "GASLIMIT"@,
        0x46 => "CHAINID"@,
        0x47 => "SELFBALANCE"@,
        0x48 => "BASEFEE"@,
        0x50 => "POP"@,
        0x51 => "MLOAD"@,
        0x52 => "MSTORE"@,
        0x53 => "MSTORE8"@,
        0x54 => "SLOAD"@,
        0x55 => "SSTORE"@,
        0x56 => "JUMP"@,
        0x57 => "JUMPI"@,
        0x58 => "PC"@,
        0x59 => "MSIZE"@,
        0x5a => "GAS"@,
        0x5b => "JUMPDEST"@,
        0x60 => "PUSH1"@,
        0x61 => "PUSH2"@,
        0x62 => "PUSH3"@,
        0x63 => "PUSH4"@,
        0x64 => "PUSH5"@,
        0x65 => "PUSH6"@,
        0x66 => "PUSH7"@,
        0x67 => "PUSH8"@,
        0x68 => "PUSH9"@,
        0x69 => "PUSH10"@,
        0x6a => "PUSH11"@,
        0x6b => "PUSH12"@,
        0x6c => "PUSH13"@,
        0x6d => "PUSH14"@,
        0x6e => "PUSH15"@,
        0x6f => "PUSH16"@,
        0x70 => "PUSH17"@,
        0x71 => "PUSH18"@,
        0x72 => "PUSH19"@,
        0x73 => "PUSH20"@,
        0x74 => "PUSH21"@,
        0x75 => "PUSH22"@,
        0x76 => "PUSH23"@,
        0x77 => "PUSH24"@,
        0x78 => "PUSH25"@,
        0x79 => "PUSH26"@,
        0x7a => "PUSH27"@,
        0x7b => "PUSH28"@,
        0x7c => "PUSH29"@,
        0x7d => "PUSH30"@,
        0x7e => "PUSH31"@,
        0x7f => "PUSH32"@,
        0x80 => "DUP1"@,
        0x81 => "DUP2"@,
        0x82 => "DUP3"@,
        0x83 => "DUP4"@,
        0x84 => "DUP5"@,
        0x85 => "DUP6"@,
        0x86 => "DUP7"@,
        0x87 => "DUP8"@,
        0x88 => "DUP9"@,
        0x89 => "DUP10"@,
        0x8a => "DUP11"@,
        0x8b => "DUP12"@,
        0x8c => "DUP13"@,
        0x8d => "DUP14"@,
        0x8e => "DUP15"@,
        0x8f => "DUP16"@,
        0x90 => "SWAP1"@,
        0x91 => "SWAP2"@,
        0x92 => "SWAP3"@,
        0x93 => "SWAP4"@,
        0x94 => "SWAP5"@,
        0x95 => "SWAP6"@,
        0x96 => "SWAP7"@,
        0x97 => "SWAP8"@,
        0x98 => "SWAP9"@,
        0x99 => "SWAP10"@,
        0x9a => "SWAP11"@,
        0x9b => "SWAP12"@,
        0x9c => "SWAP13"@,
        0x9d => "SWAP14"@,
        0x9e => "SWAP15"@,
        0x9f => "SWAP16"@,
        0xa0 => "LOG0"@,
        0xa1 => "LOG1"@,
        0xa2 => "LOG2"@,
        0xa3 => "LOG3"@,
        0xa4 => "LOG4"@,
        0xf0 => "CREATE"@,
        0xf1 => "CALL"@,
        0xf2 => "CALLCODE"@,
        0xf3 => "RETURN"@,
        0xf4 => "DELEGATECALL"@,
        0xf5 => "CREATE2"@,
        0xfa => "STATICCALL"@,
        0xfd => "REVERT"@,
        0xfe => "INVALID"@,
        0xff => "SELFDESTRUCT"@,
        _ => "unknown"@,
    }
}

/// One table entry: the canonical mnemonic of a defined opcode byte, or
/// `None` for an undefined byte.
pub fn opcode_name(b: u8) -> (r: Option<&'static str>)
    ensures
        r.is_some() == is_defined(b),
        r matches Some(s) ==> s@ == mnemonic(b),
{
    match b {
        0x00 => Some("STOP"),
        0x01 => Some("ADD"),
        0x02 => Some("MUL"),
        0x03 => Some("SUB"),
        0x04 => Some("DIV"),
        0x05 => Some("SDIV"),
        0x06 => Some("MOD"),
        0x07 => Some("SMOD"),
        0x08 => Some("ADDMOD"),
        0x09 => Some("MULMOD"),
        0x0a => Some("EXP"),
        0x0b => Some("SIGNEXTEND"),
        0x10 => Some("LT"),
        0x11 => Some("GT"),
        0x12 => Some("SLT"),
        0x13 => Some("SGT"),
        0x14 => Some("EQ"),
        0x15 => Some("ISZERO"),
        0x16 => Some("AND"),
        0x17 => Some("OR"),
        0x18 => Some("XOR"),
        0x19 => Some("NOT"),
        0x1a => Some("BYTE"),
        0x1b => Some("SHL"),
        0x1c => Some("SHR"),
        0x1d => Some("SAR"),
        0x20 => Some("SHA3"),
        0x30 => Some("ADDRESS"),
        0x31 => Some("BALANCE"),
        0x32 => Some("ORIGIN"),
        0x33 => Some("CALLER"),
        0x34 => Some("CALLVALUE"),
        0x35 => Some("CALLDATALOAD"),
        0x36 => Some("CALLDATASIZE"),
        0x37 => Some("CALLDATACOPY"),
        0x38 => Some("CODESIZE"),
        0x39 => Some("CODECOPY"),
        0x3a => Some("GASPRICE"),
        0x3b => Some("EXTCODESIZE"),
        0x3c => Some("EXTCODECOPY"),
        0x3d => Some("RETURNDATASIZE"),
        0x3e => Some("RETURNDATACOPY"),
        0x3f => Some("EXTCODEHASH"),
        0x40 => Some("BLOCKHASH"),
        0x41 => Some("COINBASE"),
        0x42 => Some("TIMESTAMP"),
        0x43 => Some("NUMBER"),
        0x44 => Some("DIFFICULTY"),
        0x45 => Some("GASLIMIT"),
        0x46 => Some("CHAINID"),
        0x47 => Some("SELFBALANCE"),
        0x48 => Some("BASEFEE"),
        0x50 => Some("POP"),
        0x51 => Some("MLOAD"),
        0x52 => Some("MSTORE"),
        0x53 => Some("MSTORE8"),
        0x54 => Some("SLOAD"),
        0x55 => Some("SSTORE"),
        0x56 => Some("JUMP"),
        0x57 => Some("JUMPI"),
        0x58 => Some("PC"),
        0x59 => Some("MSIZE"),
        0x5a => Some("GAS"),
        0x5b => Some("JUMPDEST"),
        0x60 => Some("PUSH1"),
        0x61 => Some("PUSH2"),
        0x62 => Some("PUSH3"),
        0x63 => Some("PUSH4"),
        0x64 => Some("PUSH5"),
        0x65 => Some("PUSH6"),
        0x66 => Some("PUSH7"),
        0x67 => Some("PUSH8"),
        0x68 => Some("PUSH9"),
        0x69 => Some("PUSH10"),
        0x6a => Some("PUSH11"),
        0x6b => Some("PUSH12"),
        0x6c => Some("PUSH13"),
        0x6d => Some("PUSH14"),
        0x6e => Some("PUSH15"),
        0x6f => Some("PUSH16"),
        0x70 => Some("PUSH17"),
        0x71 => Some("PUSH18"),
        0x72 => Some("PUSH19"),
        0x73 => Some("PUSH20"),
        0x74 => Some("PUSH21"),
        0x75 => Some("PUSH22"),
        0x76 => Some("PUSH23"),
        0x77 => Some("PUSH24"),
        0x78 => Some("PUSH25"),
        0x79 => Some("PUSH26"),
        0x7a => Some("PUSH27"),
        0x7b => Some("PUSH28"),
        0x7c => Some("PUSH29"),
        0x7d => Some("PUSH30"),
        0x7e => Some("PUSH31"),
        0x7f => Some("PUSH32"),
        0x80 => Some("DUP1"),
        0x81 => Some("DUP2"),
        0x82 => Some("DUP3"),
        0x83 => Some("DUP4"),
        0x84 => Some("DUP5"),
        0x85 => Some("DUP6"),
        0x86 => Some("DUP7"),
        0x87 => Some("DUP8"),
        0x88 => Some("DUP9"),
        0x89 => Some("DUP10"),
        0x8a => Some("DUP11"),
        0x8b => Some("DUP12"),
        0x8c => Some("DUP13"),
        0x8d => Some("DUP14"),
        0x8e => Some("DUP15"),
        0x8f => Some("DUP16"),
        0x90 => Some("SWAP1"),
        0x91 => Some("SWAP2"),
        0x92 => Some("SWAP3"),
        0x93 => Some("SWAP4"),
        0x94 => Some("SWAP5"),
        0x95 => Some("SWAP6"),
        0x96 => Some("SWAP7"),
        0x97 => Some("SWAP8"),
        0x98 => Some("SWAP9"),
        0x99 => Some("SWAP10"),
        0x9a => Some("SWAP11"),
        0x9b => Some("SWAP12"),
        0x9c => Some("SWAP13"),
        0x9d => Some("SWAP14"),
        0x9e => Some("SWAP15"),
        0x9f => Some("SWAP16"),
        0xa0 => Some("LOG0"),
        0xa1 => Some("LOG1"),
        0xa2 => Some("LOG2"),
        0xa3 => Some("LOG3"),
        0xa4 => Some("LOG4"),
        0xf0 => Some("CREATE"),
        0xf1 => Some("CALL"),
        0xf2 => Some("CALLCODE"),
        0xf3 => Some("RETURN"),
        0xf4 => Some("DELEGATECALL"),
        0xf5 => Some("CREATE2"),
        0xfa => Some("STATICCALL"),
        0xfd => Some("REVERT"),
        0xfe => Some("INVALID"),
        0xff => Some("SELFDESTRUCT"),
        _ => None,
    }
}

/// The bytes with no assigned meaning, listed gap by gap as the runs of
/// absent entries in the canonical table.
pub open spec fn is_undefined_gap(b: u8) -> bool {
    (0x0c <= b && b <= 0x0f)
    || (0x1e <= b && b <= 0x1f)
    || (0x21 <= b && b <= 0x2f)
    || (0x49 <= b && b <= 0x4f)
    || (0x5c <= b && b <= 0x5f)
    || (0xa5 <= b && b <= 0xef)
    || (0xf6 <= b && b <= 0xf9)
    || (0xfb <= b && b <= 0xfc)
}

/// Totality: every byte value has exactly one classification, and the bytes
/// classified undefined are exactly the listed gaps of the canonical table.
/// Every registry query (`lookup`, `is_valid`, `mnemonic_or_default`,
/// `OpCode::try_from_u8`, `OpCode::is_valid`) states its result over
/// `is_defined`, so the queries agree on every byte.
pub proof fn lemma_registry_totality(b: u8)
    ensures
        is_defined(b) <==> !is_undefined_gap(b),
{
}

/// An expanded table row pairing a raw byte with its mnemonic text.
pub struct ExpOpCode<'a> {
    pub hex: u8,
    pub str: &'a str,
}

/// A single-byte operation code; the byte value is its sole identity.
#[derive(Debug, Clone, Copy, PartialEq, Eq, Structural)]
pub struct OpCode(pub u8);

impl OpCode {
    /// Wraps a raw byte as an opcode, defined or not.
    pub fn new(uint: u8) -> (r: Self)
        ensures
            r.0 == uint,
    {
        Self(uint)
    }

    /// Wraps a raw byte as an opcode only when the byte is a defined
    /// instruction; an undefined byte yields `None`.
    pub fn try_from_u8(opcode: u8) -> (r: Option<OpCode>)
        ensures
            r.is_some() == is_defined(opcode),
            r matches Some(op) ==> op.0 == opcode,
    {
        match opcode_name(opcode) {
            Some(_) => Some(OpCode(opcode)),
            None => None,
        }
    }

    /// Returns the canonical mnemonic, or the fixed sentinel "unknown" when
    /// the byte is undefined.
    pub fn as_str(&self) -> (r: &'static str)
        ensures
            r@ == mnemonic(self.0),
            !is_defined(self.0) ==> r@ == "unknown"@,
    {
        match opcode_name(self.0) {
            Some(s) => s,
            None => "unknown",
        }
    }

    /// Returns the wrapped byte value.
    pub fn u8(&self) -> (r: u8)
        ensures
            r == self.0,
    {
        self.0
    }

    /// True exactly when the wrapped byte is a defined instruction.
    pub fn is_valid(&self) -> (r: bool)
        ensures
            r == is_defined(self.0),
    {
        opcode_name(self.0).is_some()
    }
}

/// The registry value itself: one table entry per byte value, built once and
/// then only read. Callers cannot reach the table directly, so it can never
/// be mutated after construction.
pub struct Registry {
    table: Vec<Option<&'static str>>,
}

impl View for Registry {
    type V = Seq<Option<Seq<char>>>;

    /// The registry's content: for each byte value, the mnemonic's characters
    /// or `None` where the byte is undefined.
    closed spec fn view(&self) -> Seq<Option<Seq<char>>> {
        self.table@.map_values(
            |e: Option<&'static str>|
                match e {
                    Some(s) => Some(s@),
                    None => None,
                },
        )
    }
}

impl Registry {
    /// The table covers all 256 byte values and each entry agrees with the
    /// canonical assignment: present exactly for defined bytes, holding the
    /// canonical mnemonic.
    pub closed spec fn wf(&self) -> bool {
        &&& self.table@.len() == 256
        &&& forall|i: int|
            0 <= i < 256 ==> (#[trigger] self.table@[i]).is_some() == is_defined(i as u8)
        &&& forall|i: int|
            0 <= i < 256 ==> (#[trigger] self.table@[i] matches Some(s) ==> s@ == mnemonic(
                i as u8,
            ))
    }

    /// Builds the full 256-entry table. Construction is deterministic: any
    /// two registries built this way have identical content.
    pub fn new() -> (r: Registry)
        ensures
            r.wf(),
    {
        let mut table: Vec<Option<&'static str>> = Vec::new();
        let mut i: usize = 0;
        while i < 256
            invariant
                i <= 256,
                table@.len() == i,
                forall|j: int|
                    0 <= j < i ==> (#[trigger] table@[j]).is_some() == is_defined(j as u8),
                forall|j: int|
                    0 <= j < i ==> (#[trigger] table@[j] matches Some(s) ==> s@ == mnemonic(
                        j as u8,
                    )),
            decreases 256 - i,
        {
            table.push(opcode_name(i as u8));
            i = i + 1;
        }
        Registry { table }
    }

    /// Canonical name of a defined byte, `None` for an undefined byte.
    pub fn lookup(&self, byte: u8) -> (r: Option<&'static str>)
        requires
            self.wf(),
        ensures
            r.is_some() == is_defined(byte),
            r matches Some(s) ==> s@ == mnemonic(byte),
    {
        self.table[byte as usize]
    }

    /// True exactly when `lookup` returns a name.
    pub fn is_valid(&self, byte: u8) -> (r: bool)
        requires
            self.wf(),
        ensures
            r == is_defined(byte),
    {
        self.table[byte as usize].is_some()
    }

    /// Canonical name of a defined byte, the fixed sentinel "unknown" for an
    /// undefined byte; never fails.
    pub fn mnemonic_or_default(&self, byte: u8) -> (r: &'static str)
        requires
            self.wf(),
        ensures
            r@ == mnemonic(byte),
            !is_defined(byte) ==> r@ == "unknown"@,
    {
        match self.table[byte as usize] {
            Some(s) => s,
            None => "unknown",
        }
    }
}

/// Idempotence of registry construction: any two well-formed registries — in
/// particular any two built by `Registry::new`, however many times and from
/// whichever caller — have identical content, entry for entry.
pub proof fn lemma_registry_construction_idempotent(r1: &Registry, r2: &Registry)
    requires
        r1.wf(),
        r2.wf(),
    ensures
        r1@ == r2@,
{
    assert forall|i: int| 0 <= i < 256 implies r1@[i] == r2@[i] by {
        if is_defined(i as u8) {
            let s1 = r1.table@[i]->Some_0;
            let s2 = r2.table@[i]->Some_0;
            assert(s1@ == mnemonic(i as u8) && s2@ == mnemonic(i as u8));
        }
    }
    assert(r1@ =~= r2@);
}

} // verus!
