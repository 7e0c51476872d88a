use rust_gbc_emu::cartridge::Cartridge;
use rust_gbc_emu::debug::AccessType;
use rust_gbc_emu::cpu::Cpu;
use rust_gbc_emu::gbc::Gbc;
use rust_gbc_emu::instruction::{DerefOperand, Instruction, Opcode, Operand, Register};
use rust_gbc_emu::joypad::{InputState, Joypad};
use rust_gbc_emu::memory_bus::MemoryBus;
use rust_gbc_emu::serial::Comms;
use rust_gbc_emu::timer::Timer;

fn create_default_memory_bus() -> MemoryBus {
    MemoryBus::new(Cartridge::default(), None)
}

#[test]
fn test_wram_round_trip() {
    let mut bus = create_default_memory_bus();
    let bytes: Vec<u8> = (0u8..64).map(|i| i.wrapping_mul(7).wrapping_add(3)).collect();
    for (i, &b) in bytes.iter().enumerate() {
        bus.write_u8(0xc100 + i as u16, b);
    }
    for (i, &b) in bytes.iter().enumerate() {
        assert_eq!(bus.read_u8(0xc100 + i as u16), b);
    }
    // The echo region mirrors work RAM.
    for (i, &b) in bytes.iter().enumerate() {
        assert_eq!(bus.read_u8(0xe100 + i as u16), b);
    }
}

#[test]
fn test_hram_round_trip() {
    let mut bus = create_default_memory_bus();
    for i in 0u16..127 {
        bus.write_u8(0xff80 + i, (i as u8).wrapping_mul(13));
    }
    for i in 0u16..127 {
        assert_eq!(bus.read_u8(0xff80 + i), (i as u8).wrapping_mul(13));
    }
}

#[test]
fn test_prohibited_region_open_bus() {
    let mut bus = create_default_memory_bus();
    // Reads return the address's second nibble duplicated.
    assert_eq!(bus.read_u8(0xfea0), 0xaa);
    assert_eq!(bus.read_u8(0xfeb7), 0xbb);
    // Writes are dropped.
    bus.write_u8(0xfea0, 0x5a);
    assert_eq!(bus.read_u8(0xfea0), 0xaa);
}

#[test]
fn test_inc_hl_at_prohibited_address() {
    // INC [HL] with HL at 0xfea0: the read sees the open-bus 0xaa,
    // the write is dropped, and the flags are those of 0xaa + 1.
    let mut cpu = Cpu::default();
    let mut bus = create_default_memory_bus();
    cpu.hl.set_u16(0xfea0);
    let r = cpu.execute_instruction(
        &mut bus,
        Instruction {
            address: 0,
            op: Opcode::Inc {
                operand: Operand::Deref(DerefOperand::Register(Register::Hl)),
            },
        },
    );
    assert_eq!(r, Some(12));
    assert_eq!(bus.read_u8(0xfea0), 0xaa);
    assert!(!cpu.get_zero_flag());
    assert!(!cpu.get_subtraction_flag());
    assert!(!cpu.get_half_carry_flag());
}

#[test]
fn test_oam_dma_copies_and_latches() {
    let mut bus = create_default_memory_bus();
    // Fill the first 160 bytes of work RAM with 0..160.
    for i in 0u16..160 {
        bus.write_u8(0xc000 + i, i as u8);
    }
    // Start DMA from 0xc000.
    bus.write_u8(0xff46, 0xc0);
    assert!(bus.lcd.get_dma_running());
    // While the transfer runs, non-HRAM reads see the latched value
    // and non-HRAM writes are dropped.
    let latched = bus.last_bus_value;
    assert_eq!(bus.read_u8(0xc000), latched);
    bus.write_u8(0xc000, 0x77);
    bus.run_dma(4);
    assert_eq!(bus.read_u8(0xc000), bus.last_bus_value);
    // After 636 dots in all, the transfer is still one byte short.
    bus.run_dma(632);
    assert!(bus.lcd.get_dma_running());
    // The 640th dot finishes it: exactly 160 bytes in 640 cycles.
    bus.run_dma(4);
    assert!(!bus.lcd.get_dma_running());
    for i in 0u16..160 {
        assert_eq!(bus.read_u8(0xfe00 + i), i as u8);
    }
    // The first write during the window was dropped.
    assert_eq!(bus.read_u8(0xc000), 0x00);
}

#[test]
fn test_serial_shifts_out_hello() {
    // "Hello" then a newline through SB/SC: six bytes arrive in
    // order and the serial interrupt fires exactly six times.
    let mut serial = Comms::default();
    let message = b"Hello\n";
    let mut interrupts = 0;
    for &byte in message {
        serial.write_u8(0, byte);
        serial.write_u8(1, 0x81);
        for _ in 0..8 {
            if serial.tick(512) {
                interrupts += 1;
            }
        }
    }
    assert_eq!(interrupts, 6);
    let out = serial.take_output();
    assert_eq!(out, message.to_vec());
    // With no transfer running, ticking does nothing more.
    assert!(!serial.tick(512));
    assert!(serial.take_output().is_empty());
}

#[test]
fn test_serial_incoming_bits_are_ones() {
    let mut serial = Comms::default();
    serial.write_u8(0, 0x00);
    serial.write_u8(1, 0x81);
    for _ in 0..8 {
        serial.tick(512);
    }
    // With no peer, SB fills with ones as the transfer shifts.
    assert_eq!(serial.read_u8(0), 0xff);
    // SC's start bit cleared when the byte completed.
    assert_eq!(serial.read_u8(1), 0x01);
}

#[test]
fn test_timer_overflow_reloads_and_interrupts_once() {
    // TAC 0b101: enabled, one TIMA tick every 16 cycles. From
    // TMA = TIMA = 0xf0 the counter wraps after 16 ticks = 256
    // cycles, firing exactly one interrupt.
    let mut timer = Timer::default();
    timer.write_u8(3, 0b101);
    timer.write_u8(2, 0xf0);
    timer.write_u8(1, 0xf0);
    let mut fired = 0;
    for _ in 0..15 {
        if timer.tick(16) {
            fired += 1;
        }
    }
    assert_eq!(fired, 0);
    assert_eq!(timer.read_u8(1), 0xff);
    assert!(timer.tick(16));
    // TIMA reloaded from TMA.
    assert_eq!(timer.read_u8(1), 0xf0);
}

#[test]
fn test_timer_div_rate_and_reset() {
    let mut timer = Timer::default();
    timer.tick(255);
    assert_eq!(timer.read_u8(0), 0);
    timer.tick(1);
    assert_eq!(timer.read_u8(0), 1);
    timer.tick(512);
    assert_eq!(timer.read_u8(0), 3);
    // Any write resets DIV.
    timer.write_u8(0, 0x5a);
    assert_eq!(timer.read_u8(0), 0);
}

#[test]
fn test_joypad_selection() {
    let mut joypad = Joypad::default();
    let input = InputState {
        a_pressed: true,
        start_pressed: true,
        left_pressed: true,
        ..InputState::default()
    };
    joypad.set_input_state(&input);
    // Select the action group (bit 4): A and Start read as zeros.
    joypad.write_u8(0x10);
    let actions = joypad.read_u8();
    assert_eq!(actions & 0x0f, 0b0110);
    // Select the direction group (bit 5).
    joypad.write_u8(0x20);
    let directions = joypad.read_u8();
    assert_eq!(directions & 0x0f, 0b1101);
    // Neither group selected: all ones.
    joypad.write_u8(0x00);
    assert_eq!(joypad.read_u8() & 0x0f, 0x0f);
}

#[test]
fn test_boot_rom_overlay() {
    let mut rom = vec![0u8; 0x8000];
    rom[0x00] = 0x11;
    rom[0x147] = 0x01; // MBC1
    rom[0x148] = 0x01; // 64 KiB
    let cartridge = Cartridge::new(rom).unwrap();
    let boot: Vec<u8> = (0u8..=255).collect();
    let mut bus = MemoryBus::new(cartridge, Some(boot));
    // While the latch is zero, the overlay shadows the first page.
    assert_eq!(bus.read_u8(0x0000), 0x00);
    assert_eq!(bus.read_u8(0x0042), 0x42);
    // Cartridge bytes past the overlay still show through.
    assert_eq!(bus.read_u8(0x0147), 0x01);
    // Writing 0xff50 disables the overlay.
    bus.write_u8(0xff50, 1);
    assert_eq!(bus.read_u8(0x0000), 0x11);
}

#[test]
fn test_gbc_steps_and_counts_cycles() {
    // A tiny program: NOP; JR -3 (loops forever).
    let mut rom = vec![0u8; 0x8000];
    rom[0x100] = 0x00;
    rom[0x101] = 0x18;
    rom[0x102] = 0xfd;
    let cartridge = Cartridge::new(rom).unwrap();
    let mut gbc = Gbc::new(cartridge, None);
    let c1 = gbc.single_step().unwrap();
    assert_eq!(c1, 4); // NOP
    let c2 = gbc.single_step().unwrap();
    assert_eq!(c2, 12); // JR taken
    assert_eq!(gbc.cpu.get_program_counter(), 0x100);
    assert_eq!(gbc.cycle_count, 16);
}

#[test]
fn test_halt_wakes_on_enabled_interrupt() {
    let mut cpu = Cpu::default();
    let mut bus = create_default_memory_bus();
    cpu.execute_instruction(
        &mut bus,
        Instruction {
            address: 0,
            op: Opcode::Halt,
        },
    );
    // Halted with nothing pending: one cycle passes.
    assert_eq!(cpu.single_step(&mut bus), Some(1));
    // Pending but not enabled: still halted.
    bus.write_u8(0xff0f, 0x01);
    assert_eq!(cpu.single_step(&mut bus), Some(1));
    // Enable it (IME off): the CPU wakes and executes normally.
    bus.write_u8(0xffff, 0x01);
    cpu.pc = 0xc000;
    bus.write_u8(0xc000, 0x00); // NOP
    assert_eq!(cpu.single_step(&mut bus), Some(4));
    assert_eq!(cpu.pc, 0xc001);
}

#[test]
fn test_gbc_timer_program() {
    // LD A,0xF0; LDH (06),A; LDH (05),A; LD A,0x05; LDH (07),A;
    // JR -2. TMA and TIMA start at 0xF0; TAC enables the timer at
    // sixteen cycles per tick, so the interrupt flag rises after the
    // counter's sixteen remaining steps.
    let mut rom = vec![0u8; 0x8000];
    let program = [
        0x3e, 0xf0, 0xe0, 0x06, 0xe0, 0x05, 0x3e, 0x05, 0xe0, 0x07, 0x18, 0xfe,
    ];
    rom[0x100..0x100 + program.len()].copy_from_slice(&program);
    let cartridge = Cartridge::new(rom).unwrap();
    let mut gbc = Gbc::new(cartridge, None);
    let mut cycles = 0u64;
    let mut first_interrupt_at = None;
    while cycles < 2000 {
        cycles += gbc.single_step().unwrap();
        let interrupt_flags = gbc.memory_bus.peek(0xff0f);
        if first_interrupt_at.is_none() && interrupt_flags & 0x04 != 0 {
            first_interrupt_at = Some(cycles);
            gbc.memory_bus.write_u8(0xff0f, 0);
        }
    }
    // One overflow well within the window, none after the reload
    // until the next 16 x 16 cycles have passed.
    let at = first_interrupt_at.expect("timer interrupt fired");
    assert!(at < 600, "fired at {}", at);
}

#[test]
fn test_access_type_parsing_folds_case() {
    assert!(matches!(AccessType::from_string("r"), Ok(AccessType::Read)));
    assert!(matches!(AccessType::from_string("R"), Ok(AccessType::Read)));
    assert!(matches!(
        AccessType::from_string("Rw"),
        Ok(AccessType::ReadWrite)
    ));
    assert!(matches!(
        AccessType::from_string("RWE"),
        Ok(AccessType::ReadWriteExecute)
    ));
    assert!(matches!(
        AccessType::from_string("we"),
        Ok(AccessType::WriteExecute)
    ));
    // An unknown argument comes back so the caller can report it.
    match AccessType::from_string("wx") {
        Err(msg) => assert_eq!(msg, "wx"),
        Ok(_) => panic!("wx is not an access type"),
    }
}
