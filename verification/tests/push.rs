use evm_decode::opcodes::OpCode as RegistryOpCode;
use evm_decode::utils::Byte;
use evm_decode::utils::OpCode;

#[test]
fn push_arithmetic_for_every_byte() {
    for b in 0..=255u8 {
        let op = OpCode(RegistryOpCode::new(b));
        let in_family = (0x60..=0x7f).contains(&b);
        assert_eq!(op.is_push(), in_family);
        if in_family {
            assert_eq!(op.push_size(), b - 0x5f);
        } else {
            assert_eq!(op.push_size(), 0);
        }
    }
}

#[test]
fn push_family_edges() {
    assert!(!OpCode(RegistryOpCode::new(0x5f)).is_push());
    assert!(OpCode(RegistryOpCode::new(0x60)).is_push());
    assert!(OpCode(RegistryOpCode::new(0x7f)).is_push());
    assert!(!OpCode(RegistryOpCode::new(0x80)).is_push());
    assert_eq!(OpCode(RegistryOpCode::new(0x60)).push_size(), 1);
    assert_eq!(OpCode(RegistryOpCode::new(0x7f)).push_size(), 32);
    assert_eq!(OpCode(RegistryOpCode::new(0x5b)).push_size(), 0);
}

#[test]
fn byte_keeps_both_representations() {
    let raw = Byte::Hex(String::from("0c"));
    let decoded = Byte::OpCode(OpCode(RegistryOpCode::new(0x01)));
    assert!(matches!(raw, Byte::Hex(ref s) if s == "0c"));
    assert!(matches!(decoded, Byte::OpCode(op) if op.0.u8() == 0x01));
}
