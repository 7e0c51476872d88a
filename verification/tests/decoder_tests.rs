use rust_gbc_emu::instruction::{decode, encode, Instruction, Opcode, Operand, Register};

#[test]
fn test_decode_whole_table_re_encodes() {
    // Every non-prefixed byte decodes to an opcode; every legal one
    // encodes back to the very bytes it came from.
    let b1 = 0x34u8;
    let b2 = 0x12u8;
    for b0 in 0..=255u8 {
        if b0 == 0xcb {
            continue;
        }
        let op = decode(b0, b1, b2);
        let size = op.size();
        assert!((1..=3).contains(&size));
        match encode(&op) {
            Some((c0, c1, c2)) => {
                assert_eq!(c0, b0, "first byte for {:#04x}", b0);
                if size >= 2 {
                    assert_eq!(c1, b1, "immediate byte for {:#04x}", b0);
                }
                if size >= 3 {
                    assert_eq!(c2, b2, "high immediate byte for {:#04x}", b0);
                }
            }
            None => {
                assert!(
                    matches!(op, Opcode::Unknown { .. }),
                    "only illegal opcodes lack an encoding, got {:#04x}",
                    b0
                );
            }
        }
    }
}

#[test]
fn test_decode_cb_table_re_encodes() {
    for b1 in 0..=255u8 {
        let op = decode(0xcb, b1, 0);
        assert_eq!(op.size(), 2);
        let (c0, c1, _) = encode(&op).expect("every CB opcode is legal");
        assert_eq!(c0, 0xcb);
        assert_eq!(c1, b1);
    }
}

#[test]
fn test_illegal_opcodes_decode_as_unknown() {
    for b0 in [0xd3u8, 0xdb, 0xdd, 0xe3, 0xe4, 0xeb, 0xec, 0xed, 0xf4, 0xfc, 0xfd] {
        match decode(b0, 0, 0) {
            Opcode::Unknown { opcode } => assert_eq!(opcode, b0),
            _ => panic!("{:#04x} should be illegal", b0),
        }
    }
}

#[test]
fn test_decode_carries_immediates() {
    // LD BC,0x1234
    match decode(0x01, 0x34, 0x12) {
        Opcode::Ld16 {
            destination: Operand::Register(Register::Bc),
            source: Operand::U16(v),
        } => assert_eq!(v, 0x1234),
        _ => panic!("bad decode of 0x01"),
    }
    // JR -2
    match decode(0x18, 0xfe, 0) {
        Opcode::Jr { offset } => assert_eq!(offset, -2),
        _ => panic!("bad decode of 0x18"),
    }
    // ADD SP,-1
    match decode(0xe8, 0xff, 0) {
        Opcode::Add16 {
            register: Register::Sp,
            operand: Operand::I8(d),
        } => assert_eq!(d, -1),
        _ => panic!("bad decode of 0xe8"),
    }
    // 0x76 is HALT, never LD (HL),(HL).
    assert!(matches!(decode(0x76, 0, 0), Opcode::Halt));
}

#[test]
fn test_instruction_sizes() {
    let cases: [(u8, u8); 8] = [
        (0x00, 1), // NOP
        (0x3e, 2), // LD A,d8
        (0x01, 3), // LD BC,d16
        (0xc3, 3), // JP a16
        (0x18, 2), // JR
        (0xe0, 2), // LDH (a8),A
        (0xfa, 3), // LD A,(a16)
        (0x10, 1), // STOP
    ];
    for (b0, size) in cases {
        let insn = Instruction::new(0, b0, 0, 0);
        assert_eq!(insn.size(), size, "size of {:#04x}", b0);
    }
}
