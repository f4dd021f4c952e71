use evm_decode::decoder::DecodedUnit;
use evm_decode::decoder::decode;
use evm_decode::opcodes::Registry;

fn consumed_bytes(units: &[DecodedUnit]) -> Vec<u8> {
    let mut out: Vec<u8> = Vec::new();
    for unit in units {
        match unit {
            DecodedUnit::Instruction { opcode, immediate } => {
                out.push(opcode.u8());
                out.extend(immediate.iter().copied());
            }
            DecodedUnit::RawByte { value } => out.push(*value),
        }
    }
    out
}

#[test]
fn empty_input_decodes_to_nothing() {
    let registry = Registry::new();
    let units = decode(&Vec::new(), &registry);
    assert!(units.is_empty());
}

#[test]
fn truncated_push2_keeps_no_immediate() {
    let registry = Registry::new();
    let units = decode(&vec![0x61], &registry);
    assert_eq!(units.len(), 1);
    match &units[0] {
        DecodedUnit::Instruction { opcode, immediate } => {
            assert_eq!(opcode.u8(), 0x61);
            assert_eq!(opcode.as_str(), "PUSH2");
            assert!(immediate.is_empty());
        }
        DecodedUnit::RawByte { .. } => panic!("PUSH2 must decode as an instruction"),
    }
}

#[test]
fn push1_captures_its_immediate() {
    let registry = Registry::new();
    let units = decode(&vec![0x60, 0xff], &registry);
    assert_eq!(units.len(), 1);
    match &units[0] {
        DecodedUnit::Instruction { opcode, immediate } => {
            assert_eq!(opcode.u8(), 0x60);
            assert_eq!(immediate, &vec![0xff]);
        }
        DecodedUnit::RawByte { .. } => panic!("PUSH1 must decode as an instruction"),
    }
}

#[test]
fn mixed_stream_decodes_in_order() {
    let registry = Registry::new();
    let units = decode(&vec![0x00, 0x01, 0x60, 0x05, 0x00], &registry);
    assert_eq!(units.len(), 4);
    let expected: [(u8, &str, &[u8]); 4] = [
        (0x00, "STOP", &[]),
        (0x01, "ADD", &[]),
        (0x60, "PUSH1", &[0x05]),
        (0x00, "STOP", &[]),
    ];
    for (unit, (byte, name, imm)) in units.iter().zip(expected.iter()) {
        match unit {
            DecodedUnit::Instruction { opcode, immediate } => {
                assert_eq!(opcode.u8(), *byte);
                assert_eq!(opcode.as_str(), *name);
                assert_eq!(immediate.as_slice(), *imm);
            }
            DecodedUnit::RawByte { .. } => panic!("every byte here is a defined opcode"),
        }
    }
}

#[test]
fn undefined_byte_decodes_as_raw() {
    let registry = Registry::new();
    let units = decode(&vec![0x0c], &registry);
    assert_eq!(units.len(), 1);
    match &units[0] {
        DecodedUnit::RawByte { value } => assert_eq!(*value, 0x0c),
        DecodedUnit::Instruction { .. } => panic!("an undefined byte must stay raw"),
    }
}

#[test]
fn push32_truncated_takes_what_remains() {
    let registry = Registry::new();
    let units = decode(&vec![0x7f, 0x01, 0x02, 0x03], &registry);
    assert_eq!(units.len(), 1);
    match &units[0] {
        DecodedUnit::Instruction { opcode, immediate } => {
            assert_eq!(opcode.u8(), 0x7f);
            assert_eq!(immediate, &vec![0x01, 0x02, 0x03]);
        }
        DecodedUnit::RawByte { .. } => panic!("PUSH32 must decode as an instruction"),
    }
}

#[test]
fn immediate_bytes_are_not_reread_as_opcodes() {
    let registry = Registry::new();
    // PUSH1 0x60: the immediate byte is itself the PUSH1 byte value, and must
    // not start a second instruction.
    let units = decode(&vec![0x60, 0x60, 0x00], &registry);
    assert_eq!(units.len(), 2);
    match &units[1] {
        DecodedUnit::Instruction { opcode, immediate } => {
            assert_eq!(opcode.u8(), 0x00);
            assert!(immediate.is_empty());
        }
        DecodedUnit::RawByte { .. } => panic!("STOP must decode as an instruction"),
    }
}

#[test]
fn round_trip_reproduces_the_input() {
    let registry = Registry::new();
    let inputs: Vec<Vec<u8>> = vec![
        vec![],
        vec![0x61],
        vec![0x60, 0xff],
        vec![0x00, 0x01, 0x60, 0x05, 0x00],
        vec![0x0c],
        vec![0x7f, 0x01, 0x02, 0x03],
        vec![0x0c, 0x60, 0x0c, 0xff, 0xfe, 0x62, 0xaa],
        (0..=255u8).collect(),
    ];
    for input in &inputs {
        let units = decode(input, &registry);
        assert_eq!(&consumed_bytes(&units), input);
    }
}

#[test]
fn decoding_is_deterministic() {
    let registry = Registry::new();
    let input: Vec<u8> = vec![0x60, 0x0c, 0x0c, 0x7f, 0x01];
    let first = decode(&input, &registry);
    let second = decode(&input, &registry);
    assert_eq!(first, second);
}
