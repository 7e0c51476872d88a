use rust_gbc_emu::cartridge::Cartridge;
use rust_gbc_emu::cpu::Cpu;
use rust_gbc_emu::instruction::{DerefOperand, Instruction, Opcode, Operand, Register};
use rust_gbc_emu::memory_bus::MemoryBus;

fn create_default_memory_bus() -> MemoryBus {
    MemoryBus::new(Cartridge::default(), None)
}

const CARRY_BIT_MASK: u8 = 1 << 4;
const HALF_CARRY_BIT_MASK: u8 = 1 << 5;
const SUBTRACTION_BIT_MASK: u8 = 1 << 6;
const ZERO_BIT_MASK: u8 = 1 << 7;

#[test]
fn test_default_cpu() {
    let cpu = Cpu::default();
    assert_eq!(cpu.af.get_high(), 1);
    assert_eq!(cpu.sp, 0xfffe);
}

#[test]
fn test_add_8() {
    let mut cpu = Cpu::default();
    cpu.af.set_high(0);
    cpu.add8_with_carry(0, false, false);
    assert_eq!(cpu.af.get_high(), 0);
    assert!(cpu.get_zero_flag());
    assert!(!cpu.get_subtraction_flag());
    assert!(!cpu.get_half_carry_flag());
    assert!(!cpu.get_carry_flag());

    cpu.af.set_high(0xff);
    cpu.add8_with_carry(1, false, false);
    assert_eq!(cpu.af.get_high(), 0);
    assert!(cpu.get_zero_flag());
    assert!(!cpu.get_subtraction_flag());
    assert!(cpu.get_half_carry_flag());
    assert!(cpu.get_carry_flag());

    cpu.add8_with_carry(0xff, true, false);
    assert_eq!(cpu.af.get_high(), 0);
    assert!(cpu.get_zero_flag());
    assert!(!cpu.get_subtraction_flag());
    assert!(cpu.get_half_carry_flag());
    assert!(cpu.get_carry_flag());

    cpu.af.set_high(0xf);
    cpu.add8_with_carry(1, false, false);
    assert_eq!(cpu.af.get_high(), 0x10);
    assert!(!cpu.get_zero_flag());
    assert!(!cpu.get_subtraction_flag());
    assert!(cpu.get_half_carry_flag());
    assert!(!cpu.get_carry_flag());

    cpu.af.set_high(0xf);
    cpu.add8_with_carry(0xf, false, true);
    assert_eq!(cpu.af.get_high(), 0);
    assert!(cpu.get_zero_flag());
    assert!(cpu.get_subtraction_flag());
    assert!(!cpu.get_half_carry_flag());
    assert!(!cpu.get_carry_flag());

    cpu.set_carry_flag();
    cpu.af.set_high(0xff);
    cpu.add8_with_carry(0xff, true, false);
    assert_eq!(cpu.af.get_high(), 0xff);
    assert!(!cpu.get_zero_flag());
    assert!(!cpu.get_subtraction_flag());
    assert!(cpu.get_half_carry_flag());
    assert!(cpu.get_carry_flag());

    cpu.set_carry_flag();
    cpu.af.set_high(0xf0);
    cpu.add8_with_carry(0xf, true, false);
    assert_eq!(cpu.af.get_high(), 0);
    assert!(cpu.get_zero_flag());
    assert!(!cpu.get_subtraction_flag());
    assert!(cpu.get_half_carry_flag());
    assert!(cpu.get_carry_flag());

    cpu.af.set_high(2);
    cpu.add8_with_carry(1, false, true);
    assert_eq!(cpu.af.get_high(), 1);
    assert!(!cpu.get_zero_flag());
    assert!(cpu.get_subtraction_flag());
    assert!(!cpu.get_half_carry_flag());
    assert!(!cpu.get_carry_flag());
}

#[test]
fn test_add_sp_i8() {
    let mut cpu = Cpu::default();
    let mut memory_bus = create_default_memory_bus();

    let insn = Instruction {
        address: 0,
        op: Opcode::Add16 {
            register: Register::Sp,
            operand: Operand::I8(-1),
        },
    };
    cpu.sp = 0x8000;
    cpu.execute_instruction(&mut memory_bus, insn);
    assert_eq!(cpu.sp, 0x7fff);
    assert!(!cpu.get_zero_flag());
    assert!(!cpu.get_subtraction_flag());
    assert!(!cpu.get_half_carry_flag());
    assert!(!cpu.get_carry_flag());

    let insn = Instruction {
        address: 0,
        op: Opcode::Add16 {
            register: Register::Sp,
            operand: Operand::I8(-2),
        },
    };
    cpu.sp = 0x8000;
    cpu.execute_instruction(&mut memory_bus, insn);
    assert_eq!(cpu.sp, 0x7ffe);
    assert!(!cpu.get_zero_flag());
    assert!(!cpu.get_subtraction_flag());
    assert!(!cpu.get_half_carry_flag());
    assert!(!cpu.get_carry_flag());

    let insn = Instruction {
        address: 0,
        op: Opcode::Add16 {
            register: Register::Sp,
            operand: Operand::I8(2),
        },
    };
    cpu.sp = 0x8000;
    cpu.execute_instruction(&mut memory_bus, insn);
    assert_eq!(cpu.sp, 0x8002);
    assert!(!cpu.get_zero_flag());
    assert!(!cpu.get_subtraction_flag());
    assert!(!cpu.get_half_carry_flag());
    assert!(!cpu.get_carry_flag());
}

#[test]
fn test_push_pop() {
    let mut cpu = Cpu::default();
    let mut memory_bus = create_default_memory_bus();
    // sp defaults to 0xfffe
    let v = 0x1234u16;
    cpu.push(&mut memory_bus, v);
    assert_eq!(cpu.sp, 0xfffc);
    assert_eq!(memory_bus.read_u16(cpu.sp), v);
    let v_popped = cpu.pop(&mut memory_bus);
    assert_eq!(v, v_popped);
    assert_eq!(cpu.sp, 0xfffe);
}

#[test]
fn test_pop_af() {
    let mut cpu = Cpu::default();
    let mut memory_bus = create_default_memory_bus();
    let v = 0xffff;
    cpu.push(&mut memory_bus, v);
    let insn = Instruction {
        address: 0,
        op: Opcode::Pop {
            register: Register::Af,
        },
    };
    assert_eq!(cpu.af.get_u16(), 0x01b0);
    cpu.execute_instruction(&mut memory_bus, insn);
    assert_eq!(cpu.af.get_u16(), 0xfff0);
}

#[test]
fn test_left_rotates() {
    let mut failed = false;
    let mut cpu = Cpu::default();
    let mut memory_bus = create_default_memory_bus();

    // RLCA
    for byte in 0..=255u8 {
        cpu.set_a(byte);
        cpu.execute_instruction(
            &mut memory_bus,
            Instruction {
                address: 0,
                op: Opcode::Rlca,
            },
        );
        let a = cpu.get_a();
        if a != byte.rotate_left(1) {
            println!(
                "ERROR: RLCA of {:#02x} should be {:#02x}, got {:02x}",
                byte,
                byte.rotate_left(1),
                a
            );
            failed = true;
        }
        let flags = if byte & 0x80 != 0 { CARRY_BIT_MASK } else { 0 };
        if cpu.get_flags() != flags {
            println!("Flags should be {}, got {}", flags, cpu.get_flags());
            failed = true;
        }
    }

    if failed {
        panic!("FAILED!");
    }
}

#[test]
fn test_sub() {
    let mut cpu = Cpu::default();
    let mut memory_bus = create_default_memory_bus();
    const VALUES: [u8; 9] = [0x00, 0x01, 0x0F, 0x10, 0x1F, 0x7F, 0x80, 0xF0, 0xFF];
    let mut failed = false;
    for a in VALUES {
        for imm in VALUES {
            let insn = Instruction {
                address: 0,
                op: Opcode::Sub {
                    operand: Operand::U8(imm),
                },
            };

            cpu.set_a(a);
            cpu.execute_instruction(&mut memory_bus, insn);
            let real_res = a.wrapping_sub(imm);
            let res = cpu.get_a();
            if res != real_res {
                println!(
                    "Error: {:#02x} - {:#02x} results in {:#02x} instead of {:#02x}",
                    a, imm, res, real_res
                );
                failed = true;
            }

            let mut flags = SUBTRACTION_BIT_MASK;
            if real_res == 0 {
                flags |= ZERO_BIT_MASK;
            }
            if (a & 0xf) < (imm & 0xf) {
                flags |= HALF_CARRY_BIT_MASK;
            }
            if imm > a {
                flags |= CARRY_BIT_MASK;
            }
            if flags != cpu.get_flags() {
                let cpu_flags_string = cpu.dump_flags_to_string();
                let cpu_flags = cpu.get_flags();
                cpu.set_flags(flags);
                let real_flags_string = cpu.dump_flags_to_string();
                cpu.set_flags(cpu_flags);
                println!(
                    "Error: {} - {}: Flags should be {}, got {}",
                    a, imm, real_flags_string, cpu_flags_string
                );
                failed = true;
            }
        }
    }

    if failed {
        panic!("FAILED");
    }
}

#[test]
fn test_sbc() {
    let mut cpu = Cpu::default();
    let mut memory_bus = create_default_memory_bus();
    const VALUES: [u8; 9] = [0x00, 0x01, 0x0F, 0x10, 0x1F, 0x7F, 0x80, 0xF0, 0xFF];
    let mut failed = false;
    for a in VALUES {
        for imm in VALUES {
            for carry in [false, true] {
                let insn = Instruction {
                    address: 0,
                    op: Opcode::Sbc {
                        operand: Operand::U8(imm),
                    },
                };

                cpu.set_a(a);
                cpu.set_carry_flag_from_bool(carry);
                cpu.execute_instruction(&mut memory_bus, insn);
                let real_res = a.wrapping_sub(imm).wrapping_sub(carry as u8);
                let res = cpu.get_a();
                if res != real_res {
                    println!(
                        "Error: {:#02x} - {:#02x} - {} results in {:#02x} instead of {:#02x}",
                        a, imm, carry as u8, res, real_res,
                    );
                    failed = true;
                }

                let mut flags = SUBTRACTION_BIT_MASK;
                if real_res == 0 {
                    flags |= ZERO_BIT_MASK;
                }
                if (a & 0xf) < (imm & 0xf) || (a & 0xf) < ((imm & 0xf) + (carry as u8 & 0xf)) {
                    flags |= HALF_CARRY_BIT_MASK;
                }
                if imm > a || (imm as u16 + carry as u16) > a as u16 {
                    flags |= CARRY_BIT_MASK;
                }
                if flags != cpu.get_flags() {
                    let cpu_flags_string = cpu.dump_flags_to_string();
                    let cpu_flags = cpu.get_flags();
                    cpu.set_flags(flags);
                    let real_flags_string = cpu.dump_flags_to_string();
                    cpu.set_flags(cpu_flags);
                    println!(
                        "Error: {} - {} - {}: Flags should be {}, got {}",
                        a, imm, carry as u8, real_flags_string, cpu_flags_string
                    );
                    failed = true;
                }
            }
        }
    }

    if failed {
        panic!("FAILED");
    }
}

#[test]
fn test_inc_b_wraps_and_sets_half_carry() {
    let mut cpu = Cpu::default();
    let mut memory_bus = create_default_memory_bus();
    for carry in [false, true] {
        cpu.set_carry_flag_from_bool(carry);
        cpu.set_r8(&Register::B, 0xff);
        cpu.execute_instruction(
            &mut memory_bus,
            Instruction {
                address: 0,
                op: Opcode::Inc {
                    operand: Operand::Register(Register::B),
                },
            },
        );
        assert_eq!(cpu.get_r8(&Register::B), 0);
        assert!(cpu.get_zero_flag());
        assert!(!cpu.get_subtraction_flag());
        assert!(cpu.get_half_carry_flag());
        assert_eq!(cpu.get_carry_flag(), carry);
    }
}

#[test]
fn test_dec_b_to_zero() {
    let mut cpu = Cpu::default();
    let mut memory_bus = create_default_memory_bus();
    cpu.set_r8(&Register::B, 0x01);
    cpu.execute_instruction(
        &mut memory_bus,
        Instruction {
            address: 0,
            op: Opcode::Dec {
                operand: Operand::Register(Register::B),
            },
        },
    );
    assert_eq!(cpu.get_r8(&Register::B), 0);
    assert!(cpu.get_zero_flag());
    assert!(cpu.get_subtraction_flag());
    assert!(!cpu.get_half_carry_flag());
}

#[test]
fn test_add_a_a_overflow() {
    let mut cpu = Cpu::default();
    let mut memory_bus = create_default_memory_bus();
    cpu.set_a(0x80);
    cpu.execute_instruction(
        &mut memory_bus,
        Instruction {
            address: 0,
            op: Opcode::Add8 {
                operand: Operand::Register(Register::A),
            },
        },
    );
    assert_eq!(cpu.get_a(), 0);
    assert!(cpu.get_zero_flag());
    assert!(!cpu.get_subtraction_flag());
    assert!(!cpu.get_half_carry_flag());
    assert!(cpu.get_carry_flag());
}

#[test]
fn test_unknown_opcode_is_fatal() {
    let mut cpu = Cpu::default();
    let mut memory_bus = create_default_memory_bus();
    let r = cpu.execute_instruction(
        &mut memory_bus,
        Instruction {
            address: 0,
            op: Opcode::Unknown { opcode: 0xd3 },
        },
    );
    assert!(r.is_none());
}

#[test]
fn test_interrupt_dispatch() {
    let mut cpu = Cpu::default();
    let mut memory_bus = create_default_memory_bus();
    // Enable the timer interrupt and flag it.
    memory_bus.write_u8(0xffff, 0x04);
    memory_bus.write_u8(0xff0f, 0x04);
    cpu.interrupt_master_enable = true;
    cpu.pc = 0xc123;
    cpu.sp = 0xd000;
    let cycles = cpu.single_step(&mut memory_bus);
    assert_eq!(cycles, Some(20));
    // The timer handler is at 0x50; the bit is cleared; IME drops.
    assert_eq!(cpu.pc, 0x50);
    assert!(!cpu.interrupt_master_enable);
    assert_eq!(memory_bus.peek(0xff0f), 0x00);
    // The old PC sits on the stack, little endian.
    assert_eq!(memory_bus.peek(0xcffe), 0x23);
    assert_eq!(memory_bus.peek(0xcfff), 0xc1);
}

#[test]
fn test_call_and_ret_round_trip() {
    let mut cpu = Cpu::default();
    let mut bus = create_default_memory_bus();
    cpu.pc = 0xc100;
    cpu.sp = 0xd000;
    cpu.execute_instruction(
        &mut bus,
        Instruction {
            address: 0xc100,
            op: Opcode::Call { destination: 0xc200 },
        },
    );
    // PC jumped; the address after the 3-byte CALL sits on the stack.
    assert_eq!(cpu.pc, 0xc200);
    assert_eq!(cpu.sp, 0xcffe);
    cpu.execute_instruction(
        &mut bus,
        Instruction {
            address: 0xc200,
            op: Opcode::Ret,
        },
    );
    assert_eq!(cpu.pc, 0xc103);
    assert_eq!(cpu.sp, 0xd000);
}

#[test]
fn test_hl_post_increment_and_decrement() {
    let mut cpu = Cpu::default();
    let mut bus = create_default_memory_bus();
    cpu.set_a(0x42);
    cpu.hl.set_u16(0xc800);
    // LD (HL+),A
    cpu.execute_instruction(
        &mut bus,
        Instruction {
            address: 0,
            op: Opcode::Ld8 {
                destination: Operand::Deref(DerefOperand::Register(Register::HlPlus)),
                source: Operand::Register(Register::A),
            },
        },
    );
    assert_eq!(cpu.hl.get_u16(), 0xc801);
    assert_eq!(bus.read_u8(0xc800), 0x42);
    // LD A,(HL-) back from the next cell.
    bus.write_u8(0xc801, 0x77);
    cpu.execute_instruction(
        &mut bus,
        Instruction {
            address: 0,
            op: Opcode::Ld8 {
                destination: Operand::Register(Register::A),
                source: Operand::Deref(DerefOperand::Register(Register::HlMinus)),
            },
        },
    );
    assert_eq!(cpu.get_a(), 0x77);
    assert_eq!(cpu.hl.get_u16(), 0xc800);
}

#[test]
fn test_ld_nn_sp_little_endian() {
    let mut cpu = Cpu::default();
    let mut bus = create_default_memory_bus();
    cpu.sp = 0xbeef;
    cpu.execute_instruction(
        &mut bus,
        Instruction {
            address: 0,
            op: Opcode::Ld16 {
                destination: Operand::Deref(DerefOperand::Address(0xc400)),
                source: Operand::Register(Register::Sp),
            },
        },
    );
    assert_eq!(bus.read_u8(0xc400), 0xef);
    assert_eq!(bus.read_u8(0xc401), 0xbe);
}

#[test]
fn test_stop_wakes_only_on_joypad() {
    let mut cpu = Cpu::default();
    let mut bus = create_default_memory_bus();
    cpu.execute_instruction(
        &mut bus,
        Instruction {
            address: 0,
            op: Opcode::Stop,
        },
    );
    // A pending, enabled timer interrupt does not wake a stopped CPU.
    bus.write_u8(0xffff, 0x1f);
    bus.write_u8(0xff0f, 0x04);
    assert_eq!(cpu.single_step(&mut bus), Some(1));
    // The joypad interrupt does.
    bus.write_u8(0xff0f, 0x10);
    cpu.interrupt_master_enable = false;
    cpu.pc = 0xc000;
    bus.write_u8(0xc000, 0x00); // NOP
    assert_eq!(cpu.single_step(&mut bus), Some(4));
}

#[test]
fn test_push_pop_in_work_ram() {
    let mut cpu = Cpu::default();
    let mut bus = create_default_memory_bus();
    cpu.sp = 0xd000;
    cpu.push(&mut bus, 0xa55a);
    assert_eq!(cpu.sp, 0xcffe);
    assert_eq!(cpu.pop(&mut bus), 0xa55a);
    assert_eq!(cpu.sp, 0xd000);
}
