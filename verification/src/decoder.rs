//! The byte-stream decoder: a single left-to-right pass that partitions raw
//! bytecode into decoded units, consulting the registry for each opcode byte
//! and capturing the immediate data bytes of the PUSH family so they are
//! never misread as instructions.
//!
//! Policy for undefined bytes: the decoder emits them as raw bytes
//! (`DecodedUnit::RawByte`); a consumer that instead wants a best-effort
//! "unknown"-labelled line uses `Registry::mnemonic_or_default` on the value.
//! A truncated trailing PUSH is not an error: the unit carries the immediate
//! bytes that are actually present, possibly fewer than the opcode asks for.

use vstd::prelude::*;

use crate::opcodes::OpCode;
use crate::opcodes::Registry;
use crate::opcodes::is_defined;
use crate::utils::push_immediate_len;

verus! {

/// Mathematical model of one decoded unit: a recognized opcode byte with the
/// immediate bytes it consumed, or a single undefined byte kept raw.
pub enum UnitModel {
    Instruction { opcode: u8, immediate: Seq<u8> },
    RawByte { value: u8 },
}

/// One element of the decoder's output: a recognized instruction together
/// with any immediate operand bytes that follow it in the stream, or an
/// undefined byte kept as an opaque value.
#[derive(Debug, PartialEq, Eq)]
pub enum DecodedUnit {
    Instruction { opcode: OpCode, immediate: Vec<u8> },
    RawByte { value: u8 },
}

impl View for DecodedUnit {
    type V = UnitModel;

    open spec fn view(&self) -> UnitModel {
        match self {
            DecodedUnit::Instruction { opcode, immediate } => UnitModel::Instruction {
                opcode: opcode.0,
                immediate: immediate@,
            },
            DecodedUnit::RawByte { value } => UnitModel::RawByte { value: *value },
        }
    }
}

/// The bytes one unit consumed from the stream: the opcode byte followed by
/// its immediate bytes, or the single raw byte.
pub open spec fn unit_bytes(u: UnitModel) -> Seq<u8> {
    match u {
        UnitModel::Instruction { opcode, immediate } => seq![opcode] + immediate,
        UnitModel::RawByte { value } => seq![value],
    }
}

/// The bytes a unit sequence consumed, concatenated in order.
pub open spec fn units_bytes(us: Seq<UnitModel>) -> Seq<u8>
    decreases us.len(),
{
    if us.len() == 0 {
        Seq::<u8>::empty()
    } else {
        unit_bytes(us[0]) + units_bytes(us.drop_first())
    }
}

/// The models of a sequence of decoded units.
pub open spec fn units_view(us: Seq<DecodedUnit>) -> Seq<UnitModel> {
    us.map_values(|u: DecodedUnit| u@)
}

/// How many bytes one decoding step consumes when the opcode byte `b` starts
/// it: the opcode byte plus its immediate length, capped by the bytes that
/// remain (the short-read policy for a truncated trailing PUSH).
pub open spec fn step_len(b: u8, remaining: int) -> int {
    let want = 1 + push_immediate_len(b) as int;
    if want <= remaining {
        want
    } else {
        remaining
    }
}

/// The decoder's meaning, one step per recursion: an undefined byte becomes
/// one raw-byte unit; a defined byte becomes one instruction unit carrying
/// the immediate bytes its PUSH size asks for, short of that when the stream
/// ends first.
pub open spec fn decode_model(bytes: Seq<u8>) -> Seq<UnitModel>
    decreases bytes.len(),
{
    if bytes.len() == 0 {
        Seq::<UnitModel>::empty()
    } else {
        let b = bytes[0];
        if !is_defined(b) {
            seq![UnitModel::RawByte { value: b }] + decode_model(
                bytes.subrange(1, bytes.len() as int),
            )
        } else {
            let step = step_len(b, bytes.len() as int);
            seq![
                UnitModel::Instruction { opcode: b, immediate: bytes.subrange(1, step) },
            ] + decode_model(bytes.subrange(step, bytes.len() as int))
        }
    }
}

/// Decodes a raw byte sequence into its ordered sequence of decoded units,
/// consulting the given registry for every opcode byte. Pure: the result is
/// exactly `decode_model` of the input, so equal inputs always decode to
/// equal unit sequences.
pub fn decode(bytes: &Vec<u8>, registry: &Registry) -> (r: Vec<DecodedUnit>)
    requires
        registry.wf(),
    ensures
        units_view(r@) == decode_model(bytes@),
{
    let mut out: Vec<DecodedUnit> = Vec::new();
    let mut i: usize = 0;
    proof {
        assert(units_view(out@) =~= Seq::<UnitModel>::empty());
        assert(bytes@.subrange(0, bytes@.len() as int) =~= bytes@);
        assert(decode_model(bytes@) =~= units_view(out@) + decode_model(
            bytes@.subrange(0, bytes@.len() as int),
        ));
    }
    while i < bytes.len()
        invariant
            registry.wf(),
            i <= bytes@.len(),
            decode_model(bytes@) == units_view(out@) + decode_model(
                bytes@.subrange(i as int, bytes@.len() as int),
            ),
        decreases bytes@.len() - i,
    {
        let ghost rest = bytes@.subrange(i as int, bytes@.len() as int);
        let ghost prev_out = out@;
        let b = bytes[i];
        proof {
            assert(rest[0] == b);
        }
        if registry.is_valid(b) {
            let op = OpCode::new(b);
            let wrapped = crate::utils::OpCode(op);
            let n: usize = wrapped.push_size() as usize;
            let avail: usize = bytes.len() - (i + 1);
            let take: usize = if n <= avail {
                n
            } else {
                avail
            };
            let mut immediate: Vec<u8> = Vec::new();
            let mut j: usize = 0;
            proof {
                assert(immediate@ =~= bytes@.subrange(i + 1, i + 1 + j));
            }
            while j < take
                invariant
                    i + 1 + take <= bytes@.len(),
                    i + 1 + take <= usize::MAX,
                    j <= take,
                    immediate@ == bytes@.subrange(i + 1, i + 1 + j),
                decreases take - j,
            {
                immediate.push(bytes[i + 1 + j]);
                proof {
                    assert(immediate@ =~= bytes@.subrange(i + 1, i + 1 + (j + 1)));
                }
                j = j + 1;
            }
            let unit = DecodedUnit::Instruction { opcode: op, immediate };
            out.push(unit);
            proof {
                let step: int = step_len(b, rest.len() as int);
                assert(step == 1 + take);
                let u = UnitModel::Instruction { opcode: b, immediate: rest.subrange(1, step) };
                assert(rest.subrange(1, step) =~= bytes@.subrange(i + 1, i + 1 + take));
                assert(decode_model(rest) == seq![u] + decode_model(
                    rest.subrange(step, rest.len() as int),
                ));
                assert(rest.subrange(step, rest.len() as int) =~= bytes@.subrange(
                    i + 1 + take,
                    bytes@.len() as int,
                ));
                assert(units_view(out@) =~= units_view(prev_out).push(u));
                assert(units_view(out@) + decode_model(
                    bytes@.subrange(i + 1 + take, bytes@.len() as int),
                ) =~= units_view(prev_out) + decode_model(rest));
            }
            i = i + 1 + take;
        } else {
            out.push(DecodedUnit::RawByte { value: b });
            proof {
                let u = UnitModel::RawByte { value: b };
                assert(decode_model(rest) == seq![u] + decode_model(
                    rest.subrange(1, rest.len() as int),
                ));
                assert(rest.subrange(1, rest.len() as int) =~= bytes@.subrange(
                    i + 1,
                    bytes@.len() as int,
                ));
                assert(units_view(out@) =~= units_view(prev_out).push(u));
                assert(units_view(out@) + decode_model(
                    bytes@.subrange(i + 1, bytes@.len() as int),
                ) =~= units_view(prev_out) + decode_model(rest));
            }
            i = i + 1;
        }
    }
    proof {
        assert(bytes@.subrange(i as int, bytes@.len() as int) =~= Seq::<u8>::empty());
        assert(units_view(out@) + decode_model(Seq::<u8>::empty()) =~= units_view(out@));
    }
    out
}

/// Round-trip / partition law: a decoded sequence is an ordered partition of
/// the input — concatenating the bytes each unit consumed, in order,
/// reproduces the input exactly, with no overlap and no gap.
pub proof fn lemma_decode_partition(bytes: Seq<u8>)
    ensures
        units_bytes(decode_model(bytes)) == bytes,
    decreases bytes.len(),
{
    if bytes.len() == 0 {
        assert(units_bytes(decode_model(bytes)) =~= bytes);
    } else {
        let b = bytes[0];
        let units = decode_model(bytes);
        if !is_defined(b) {
            let rest = bytes.subrange(1, bytes.len() as int);
            lemma_decode_partition(rest);
            let u = UnitModel::RawByte { value: b };
            assert(units == seq![u] + decode_model(rest));
            assert(units.drop_first() =~= decode_model(rest));
            assert(units_bytes(units) == unit_bytes(u) + units_bytes(units.drop_first()));
            assert(units_bytes(units) =~= bytes);
        } else {
            let step: int = step_len(b, bytes.len() as int);
            let rest = bytes.subrange(step, bytes.len() as int);
            lemma_decode_partition(rest);
            let u = UnitModel::Instruction { opcode: b, immediate: bytes.subrange(1, step) };
            assert(units == seq![u] + decode_model(rest));
            assert(units.drop_first() =~= decode_model(rest));
            assert(units_bytes(units) == unit_bytes(u) + units_bytes(units.drop_first()));
            assert(units_bytes(units) =~= bytes);
        }
    }
}

} // verus!
