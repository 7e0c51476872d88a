use rust_gbc_emu::cartridge::Cartridge;
use rust_gbc_emu::cpu::Cpu;
use rust_gbc_emu::gbc::Gbc;
use rust_gbc_emu::instruction::{Instruction, Opcode, Operand, Register};
use rust_gbc_emu::memory_bus::MemoryBus;
use rust_gbc_emu::utils::Flag;

fn create_default_memory_bus() -> MemoryBus {
    MemoryBus::new(Cartridge::default(), None)
}

fn exec(cpu: &mut Cpu, bus: &mut MemoryBus, op: Opcode) -> Option<u64> {
    cpu.execute_instruction(bus, Instruction { address: 0, op })
}

#[test]
fn test_daa_after_add() {
    let mut cpu = Cpu::default();
    let mut bus = create_default_memory_bus();
    // 0x09 + 0x01 = 0x0a; the decimal adjust turns it into 0x10.
    cpu.set_a(0x09);
    exec(&mut cpu, &mut bus, Opcode::Add8 { operand: Operand::U8(0x01) });
    exec(&mut cpu, &mut bus, Opcode::Daa);
    assert_eq!(cpu.get_a(), 0x10);
    assert!(!cpu.get_carry_flag());
    // 0x99 + 0x01 wraps the BCD century: 0x00 with carry.
    cpu.set_a(0x99);
    exec(&mut cpu, &mut bus, Opcode::Add8 { operand: Operand::U8(0x01) });
    exec(&mut cpu, &mut bus, Opcode::Daa);
    assert_eq!(cpu.get_a(), 0x00);
    assert!(cpu.get_carry_flag());
    assert!(cpu.get_zero_flag());
}

#[test]
fn test_daa_after_sub() {
    let mut cpu = Cpu::default();
    let mut bus = create_default_memory_bus();
    // 0x42 - 0x09 = 0x39 in binary; decimal adjust gives 0x33.
    cpu.set_a(0x42);
    exec(&mut cpu, &mut bus, Opcode::Sub { operand: Operand::U8(0x09) });
    exec(&mut cpu, &mut bus, Opcode::Daa);
    assert_eq!(cpu.get_a(), 0x33);
    assert!(!cpu.get_carry_flag());
}

#[test]
fn test_logic_flags() {
    let mut cpu = Cpu::default();
    let mut bus = create_default_memory_bus();
    cpu.set_a(0xf0);
    exec(&mut cpu, &mut bus, Opcode::And { operand: Operand::U8(0x0f) });
    assert_eq!(cpu.get_a(), 0x00);
    assert!(cpu.get_zero_flag());
    assert!(cpu.get_half_carry_flag());
    assert!(!cpu.get_carry_flag());

    cpu.set_a(0xf0);
    exec(&mut cpu, &mut bus, Opcode::Or { operand: Operand::U8(0x0f) });
    assert_eq!(cpu.get_a(), 0xff);
    assert!(!cpu.get_zero_flag());
    assert!(!cpu.get_half_carry_flag());

    exec(&mut cpu, &mut bus, Opcode::Xor { operand: Operand::Register(Register::A) });
    assert_eq!(cpu.get_a(), 0x00);
    assert!(cpu.get_zero_flag());

    cpu.set_a(0x3c);
    exec(&mut cpu, &mut bus, Opcode::Cp { operand: Operand::U8(0x3c) });
    assert_eq!(cpu.get_a(), 0x3c);
    assert!(cpu.get_zero_flag());
    assert!(cpu.get_subtraction_flag());
}

#[test]
fn test_cb_rotates_and_swap() {
    let mut cpu = Cpu::default();
    let mut bus = create_default_memory_bus();
    cpu.set_r8(&Register::B, 0x81);
    exec(
        &mut cpu,
        &mut bus,
        Opcode::Rlc { operand: Operand::Register(Register::B) },
    );
    assert_eq!(cpu.get_r8(&Register::B), 0x03);
    assert!(cpu.get_carry_flag());
    assert!(!cpu.get_zero_flag());

    cpu.set_r8(&Register::C, 0x0f);
    exec(
        &mut cpu,
        &mut bus,
        Opcode::Swap { operand: Operand::Register(Register::C) },
    );
    assert_eq!(cpu.get_r8(&Register::C), 0xf0);
    assert!(!cpu.get_carry_flag());

    cpu.set_r8(&Register::D, 0x01);
    exec(
        &mut cpu,
        &mut bus,
        Opcode::Srl { operand: Operand::Register(Register::D) },
    );
    assert_eq!(cpu.get_r8(&Register::D), 0x00);
    assert!(cpu.get_zero_flag());
    assert!(cpu.get_carry_flag());

    cpu.set_r8(&Register::E, 0x82);
    exec(
        &mut cpu,
        &mut bus,
        Opcode::Sra { operand: Operand::Register(Register::E) },
    );
    assert_eq!(cpu.get_r8(&Register::E), 0xc1);
    assert!(!cpu.get_carry_flag());
}

#[test]
fn test_bit_res_set() {
    let mut cpu = Cpu::default();
    let mut bus = create_default_memory_bus();
    cpu.set_r8(&Register::H, 0b0100_0000);
    exec(
        &mut cpu,
        &mut bus,
        Opcode::Bit { bit: 6, destination: Operand::Register(Register::H) },
    );
    assert!(!cpu.get_zero_flag());
    assert!(cpu.get_half_carry_flag());
    exec(
        &mut cpu,
        &mut bus,
        Opcode::Bit { bit: 5, destination: Operand::Register(Register::H) },
    );
    assert!(cpu.get_zero_flag());
    exec(
        &mut cpu,
        &mut bus,
        Opcode::SetBit { bit: 0, destination: Operand::Register(Register::H) },
    );
    assert_eq!(cpu.get_r8(&Register::H), 0b0100_0001);
    exec(
        &mut cpu,
        &mut bus,
        Opcode::Res { bit: 6, destination: Operand::Register(Register::H) },
    );
    assert_eq!(cpu.get_r8(&Register::H), 0b0000_0001);
}

#[test]
fn test_scf_ccf() {
    let mut cpu = Cpu::default();
    let mut bus = create_default_memory_bus();
    exec(&mut cpu, &mut bus, Opcode::Scf);
    assert!(cpu.get_carry_flag());
    assert!(!cpu.get_subtraction_flag());
    assert!(!cpu.get_half_carry_flag());
    exec(&mut cpu, &mut bus, Opcode::Ccf);
    assert!(!cpu.get_carry_flag());
    exec(&mut cpu, &mut bus, Opcode::Ccf);
    assert!(cpu.get_carry_flag());
}

#[test]
fn test_flag_round_trip() {
    assert!(Flag::On.to_bool());
    assert!(!Flag::Off.to_bool());
    assert!(Flag::from_bool(true).to_bool());
    assert!(!Flag::from_bool(false).to_bool());
}

#[test]
fn test_gbc_serial_program() {
    // LD A,'H'; LDH (0x01),A; LD A,0x81; LDH (0x02),A; JR -2.
    let mut rom = vec![0u8; 0x8000];
    let program = [0x3e, 0x48, 0xe0, 0x01, 0x3e, 0x81, 0xe0, 0x02, 0x18, 0xfe];
    rom[0x100..0x100 + program.len()].copy_from_slice(&program);
    let cartridge = Cartridge::new(rom).unwrap();
    let mut gbc = Gbc::new(cartridge, None);
    let mut cycles = 0u64;
    while cycles < 6000 {
        cycles += gbc.single_step().unwrap();
    }
    // The byte went out and the serial interrupt was flagged.
    assert_eq!(gbc.take_serial_output(), vec![b'H']);
    assert_eq!(gbc.memory_bus.peek(0xff0f) & 0x08, 0x08);
}
