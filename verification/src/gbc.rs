use vstd::prelude::*;
use crate::cartridge::Cartridge;
use crate::cpu::{Cpu, InterruptRequest};
use crate::debug::{AccessType, BreakReason, Breakpoint};
use crate::instruction::Instruction;
use crate::joypad::InputState;
use crate::lcd::{Color, Lcd};
use crate::memory_bus::MemoryBus;
use crate::ppu::{Tile, TileAddressingMethod};

verus! {

/// The DMG base clock in Hz.
pub const CLOCK_SPEED: u64 = 4194304;

/// The first breakpoint in the list armed for execution and covering
/// `pc`.
pub open spec fn spec_matching_execute_breakpoint(
    bps: Seq<Breakpoint>,
    pc: u16,
) -> Option<Breakpoint>
    decreases bps.len(),
{
    if bps.len() == 0 {
        Option::None
    } else {
        let bp = bps[0];
        if bp.access_type.spec_on_execute() && bp.address <= pc && pc < bp.address + bp.length {
            Option::Some(bp)
        } else {
            spec_matching_execute_breakpoint(bps.drop_first(), pc)
        }
    }
}

/// The whole console: the CPU, the bus with everything behind it, the
/// running cycle count and the debugger's execute breakpoints. The
/// host drives it one `single_step` at a time.
#[derive(Debug)]
pub struct Gbc {
    pub clock_speed: u64,
    pub cpu: Cpu,
    pub cycle_count: u64,
    pub breakpoints: Vec<Breakpoint>,
    pub break_reason: Option<Breakpoint>,
    pub memory_bus: MemoryBus,
    /// How many frames the PPU has completed; the host redraws when
    /// it changes.
    pub frame_count: u64,
}

impl Gbc {
    pub open spec fn wf(self) -> bool {
        &&& self.cpu.wf()
        &&& self.memory_bus.wf()
    }

    /// Builds a console around a parsed cartridge, optionally with a
    /// 256-byte boot ROM overlay.
    pub fn new(cartridge: Cartridge, boot_rom: Option<Vec<u8>>) -> (r: Gbc)
        requires
            cartridge.wf(),
            boot_rom matches Option::Some(b) ==> b@.len() == 256,
        ensures
            r.wf(),
            r.cycle_count == 0,
            r.memory_bus.cartridge == cartridge,
            r.clock_speed == CLOCK_SPEED,
    {
        Gbc {
            clock_speed: CLOCK_SPEED,
            cpu: Cpu::new(),
            cycle_count: 0,
            breakpoints: Vec::new(),
            break_reason: Option::None,
            memory_bus: MemoryBus::new(cartridge, boot_rom),
            frame_count: 0,
        }
    }

    #[must_use]
    pub fn get_clock_speed(&self) -> (r: u64)
        ensures
            r == self.clock_speed,
    {
        self.clock_speed
    }

    /// Registers a breakpoint: execute breakpoints stay with the
    /// orchestrator's list, read/write ones go to the bus's.
    pub fn add_breakpoint(&mut self, address: u16, access_type: AccessType, length: u16,
        reason: BreakReason)
        requires
            old(self).wf(),
        ensures
            final(self).wf(),
            access_type.spec_on_execute() ==> final(self).breakpoints@ == old(self).breakpoints@.push(Breakpoint { address, access_type, length, reason }),
            !access_type.spec_on_execute() ==> final(self).breakpoints@ == old(self).breakpoints@,
            access_type.spec_on_read() || access_type.spec_on_write() ==> final(self).memory_bus.memory_breakpoints@ == old(self).memory_bus.memory_breakpoints@.push(
                Breakpoint { address, access_type, length, reason },
            ),
            !(access_type.spec_on_read() || access_type.spec_on_write()) ==> final(self).memory_bus.memory_breakpoints@ == old(self).memory_bus.memory_breakpoints@,
    {
        let bp = Breakpoint::new(address, access_type, length, reason);
        if access_type.on_execute() {
            self.breakpoints.push(bp);
        }
        if access_type.on_read() || access_type.on_write() {
            self.memory_bus.add_breakpoint(bp);
        }
    }

    #[must_use]
    pub fn list_breakpoints(&self) -> (r: &Vec<Breakpoint>)
        ensures
            r@ == self.breakpoints@,
    {
        &self.breakpoints
    }

    pub fn remove_breakpoint(&mut self, index: usize)
        requires
            old(self).wf(),
        ensures
            final(self).wf(),
            index < old(self).breakpoints@.len() ==> final(self).breakpoints@ == old(self).breakpoints@.remove(index as int),
            index >= old(self).breakpoints@.len() ==> *final(self) == *old(self),
    {
        if index < self.breakpoints.len() {
            self.breakpoints.remove(index);
        }
    }

    #[must_use]
    pub fn get_last_breakpoint(&self) -> (r: Option<Breakpoint>)
        ensures
            r == self.break_reason,
    {
        self.break_reason
    }

    /// Records the first execute breakpoint covering the current PC;
    /// without one, the latched reason is left alone.
    fn check_execute_breakpoints(&mut self)
        requires
            old(self).wf(),
        ensures
            final(self).wf(),
            *final(self) == (Gbc { break_reason: final(self).break_reason, ..*old(self) }),
            final(self).break_reason == (match spec_matching_execute_breakpoint(
                old(self).breakpoints@,
                old(self).cpu.pc,
            ) {
                Option::Some(bp) => Option::Some(bp),
                Option::None => old(self).break_reason,
            }),
    {
        let pc = self.cpu.get_program_counter();
        proof {
            assert(self.breakpoints@.skip(0) =~= self.breakpoints@);
        }
        let mut i: usize = 0;
        while i < self.breakpoints.len()
            invariant
                i <= self.breakpoints@.len(),
                self.wf(),
                *self == *old(self),
                pc == old(self).cpu.pc,
                spec_matching_execute_breakpoint(self.breakpoints@, pc)
                    == spec_matching_execute_breakpoint(self.breakpoints@.skip(i as int), pc),
            decreases self.breakpoints@.len() - i,
        {
            let bp = self.breakpoints[i];
            proof {
                assert(self.breakpoints@.skip(i as int).drop_first() =~= self.breakpoints@.skip(
                    i + 1,
                ));
            }
            if bp.access_type.on_execute() && bp.matches_address(pc) {
                self.break_reason = Option::Some(bp);
                return ;
            }
            i = i + 1;
        }
    }

    /// Latches any break reason from this step: the first execute
    /// breakpoint covering PC wins; failing that, a memory breakpoint
    /// the bus recorded is taken (and cleared there). Returns whether
    /// the host should pause.
    pub fn check_breakpoints(&mut self) -> (r: bool)
        requires
            old(self).wf(),
        ensures
            final(self).wf(),
            ({
                let hit = spec_matching_execute_breakpoint(
                    old(self).breakpoints@,
                    old(self).cpu.pc,
                );
                &&& (hit matches Option::Some(bp) ==> final(self).break_reason
                    == Option::Some(bp) && *final(self) == (Gbc {
                    break_reason: final(self).break_reason,
                    ..*old(self)
                }))
                &&& (hit is None ==> final(self).break_reason == old(self).memory_bus.break_reason && *final(self) == (Gbc {
                    break_reason: final(self).break_reason,
                    memory_bus: final(self).memory_bus,
                    ..*old(self)
                }) && final(self).memory_bus == (MemoryBus {
                    break_reason: Option::None,
                    ..old(self).memory_bus
                }))
                &&& r == (final(self).break_reason is Some)
            }),
    {
        self.break_reason = Option::None;
        self.check_execute_breakpoints();
        if self.break_reason.is_none() {
            self.break_reason = self.memory_bus.get_break_reason();
        }
        self.break_reason.is_some()
    }

    /// One instruction (or interrupt dispatch, or idle cycle): steps
    /// the CPU, then advances the peripherals and the OAM-DMA engine
    /// by the same cycle count and raises the interrupts they
    /// flagged. `None` reports a fatal illegal opcode.
    pub fn single_step(&mut self) -> (r: Option<u64>)
        requires
            old(self).wf(),
        ensures
            final(self).wf(),
            r matches Option::Some(cycles) ==> 1 <= cycles <= 24 && final(self).cycle_count
                == old(self).cycle_count.wrapping_add(cycles),
            r is None ==> final(self).cycle_count == old(self).cycle_count,
            !old(self).memory_bus.lcd.dma_running && !(old(self).cpu.state
                matches crate::cpu::CpuState::Running) && (old(self).memory_bus.spec_bus_read(
                0xff0f,
            ) & old(self).memory_bus.spec_bus_read(0xffff) & 0x1f) == 0 ==> ({
                &&& r == Option::Some(1u64)
                &&& final(self).cpu == (Cpu { state: final(self).cpu.state, ..old(self).cpu })
                &&& exists|fired: bool|
                    crate::serial::spec_serial_tick(
                        old(self).memory_bus.serial,
                        final(self).memory_bus.serial,
                        1,
                        fired,
                    )
                &&& exists|fired: bool|
                    crate::timer::spec_timer_tick(
                        old(self).memory_bus.timer_control,
                        final(self).memory_bus.timer_control,
                        1,
                        fired,
                    )
            }),
    {
        let stepped = self.cpu.single_step(&mut self.memory_bus);
        match stepped {
            Option::Some(cycles) => {
                let interrupts = self.tick_hardware(cycles);
                self.cpu.request_interrupts(&mut self.memory_bus, &interrupts);
                self.cycle_count = self.cycle_count.wrapping_add(cycles);
                proof {
                    if !old(self).memory_bus.lcd.dma_running && !(old(self).cpu.state
                        matches crate::cpu::CpuState::Running) && (old(self).memory_bus.spec_bus_read(0xff0f) & old(self).memory_bus.spec_bus_read(
                        0xffff,
                    ) & 0x1f) == 0 {
                        assert(crate::serial::spec_serial_tick(
                            old(self).memory_bus.serial,
                            self.memory_bus.serial,
                            1,
                            interrupts.serial,
                        ));
                        assert(crate::timer::spec_timer_tick(
                            old(self).memory_bus.timer_control,
                            self.memory_bus.timer_control,
                            1,
                            interrupts.timer,
                        ));
                    }
                }
                Option::Some(cycles)
            },
            Option::None => Option::None,
        }
    }

    /// Advances timer, serial, PPU and OAM-DMA by one step's cycles;
    /// returns which interrupts they raised. The serial and timer
    /// effects delegate to those peripherals' own tick relations; the
    /// CPU, cartridge, RAM and interrupt registers stay put.
    pub fn tick_hardware(&mut self, cycles: u64) -> (r: InterruptRequest)
        requires
            old(self).wf(),
            cycles <= 512,
        ensures
            final(self).wf(),
            crate::serial::spec_serial_tick(
                old(self).memory_bus.serial,
                final(self).memory_bus.serial,
                cycles,
                r.serial,
            ),
            crate::timer::spec_timer_tick(
                old(self).memory_bus.timer_control,
                final(self).memory_bus.timer_control,
                cycles,
                r.timer,
            ),
            r.joypad == false,
            final(self).cpu == old(self).cpu,
            final(self).cycle_count == old(self).cycle_count,
            final(self).breakpoints@ == old(self).breakpoints@,
            final(self).memory_bus.ppu.video_ram == old(self).memory_bus.ppu.video_ram,
            final(self).memory_bus.cartridge == old(self).memory_bus.cartridge,
            final(self).memory_bus.ram@ == old(self).memory_bus.ram@,
            final(self).memory_bus.high_ram@ == old(self).memory_bus.high_ram@,
            final(self).memory_bus.interrupt_flags == old(self).memory_bus.interrupt_flags,
            final(self).memory_bus.interrupt_enable == old(self).memory_bus.interrupt_enable,
            final(self).memory_bus.joypad == old(self).memory_bus.joypad,
            final(self).memory_bus.boot_rom_disable == old(self).memory_bus.boot_rom_disable,
            r.vblank ==> final(self).frame_count == old(self).frame_count.wrapping_add(1),
            !r.vblank ==> final(self).frame_count == old(self).frame_count,
            !old(self).memory_bus.lcd.dma_running ==> !final(self).memory_bus.lcd.dma_running
                && final(self).memory_bus.ppu.object_attribute_memory == old(
                self,
            ).memory_bus.ppu.object_attribute_memory,
            old(self).memory_bus.lcd.control / 128 == 1 ==> ({
                let scanned = crate::lcd::spec_lcd_scan(old(self).memory_bus.lcd, cycles as nat);
                &&& final(self).memory_bus.lcd == (Lcd {
                    dma_low_byte: final(self).memory_bus.lcd.dma_low_byte,
                    dma_running: final(self).memory_bus.lcd.dma_running,
                    ..scanned.0
                })
                &&& r.vblank == scanned.1
                &&& r.stat == scanned.2
            }),
            old(self).memory_bus.lcd.control / 128 != 1 ==> r.vblank == false && r.stat == false
                && final(self).memory_bus.lcd == (Lcd {
                dma_low_byte: final(self).memory_bus.lcd.dma_low_byte,
                dma_running: final(self).memory_bus.lcd.dma_running,
                ..old(self).memory_bus.lcd
            }),
    {
        let serial_interrupt = self.memory_bus.serial.tick(cycles);
        let (vblank, stat) = self.memory_bus.ppu.tick(cycles, &mut self.memory_bus.lcd);
        let timer_interrupt = self.memory_bus.timer_control.tick(cycles);
        self.memory_bus.run_dma(cycles);
        if vblank {
            self.frame_count = self.frame_count.wrapping_add(1);
        }
        InterruptRequest {
            vblank,
            stat,
            timer: timer_interrupt,
            serial: serial_interrupt,
            joypad: false,
        }
    }

    /// A copy of the frame being displayed, 160x144 pixels row by
    /// row.
    #[must_use]
    pub fn get_current_framebuffer(&self) -> (r: Vec<Color>)
        requires
            self.wf(),
        ensures
            r@ == self.memory_bus.ppu.spec_current_framebuffer(),
    {
        self.memory_bus.ppu.get_current_framebuffer()
    }

    #[must_use]
    pub fn get_frame_count(&self) -> (r: u64)
        ensures
            r == self.frame_count,
    {
        self.frame_count
    }

    /// Every serial byte shifted out since the last call.
    pub fn take_serial_output(&mut self) -> (r: Vec<u8>)
        requires
            old(self).wf(),
        ensures
            final(self).wf(),
            r@ == old(self).memory_bus.serial.out_buffer@,
            final(self).memory_bus.serial.out_buffer@.len() == 0,
            *final(self) == (Gbc {
                memory_bus: final(self).memory_bus,
                ..*old(self)
            }),
            final(self).memory_bus == (MemoryBus {
                serial: final(self).memory_bus.serial,
                ..old(self).memory_bus
            }),
            final(self).memory_bus.serial == (crate::serial::Comms {
                out_buffer: final(self).memory_bus.serial.out_buffer,
                ..old(self).memory_bus.serial
            }),
    {
        self.memory_bus.serial.take_output()
    }

    /// Hands the host's current button state to the joypad: only the
    /// joypad matrix byte moves.
    pub fn set_input_state(&mut self, input_state: &InputState)
        requires
            old(self).wf(),
        ensures
            final(self).wf(),
            *final(self) == (Gbc { memory_bus: final(self).memory_bus, ..*old(self) }),
            final(self).memory_bus == (MemoryBus {
                joypad: crate::joypad::Joypad {
                    input: final(self).memory_bus.joypad.input,
                    ..old(self).memory_bus.joypad
                },
                ..old(self).memory_bus
            }),
    {
        self.memory_bus.joypad.set_input_state(input_state);
    }

    /// Reads a span of bus addresses (a debugger convenience; the
    /// reads latch like CPU reads).
    #[must_use]
    pub fn read_memory(&mut self, address: u16, length: u16) -> (r: Vec<u8>)
        requires
            old(self).wf(),
        ensures
            final(self).wf(),
            r@.len() == length,
            !old(self).memory_bus.lcd.dma_running ==> forall|i: int|
                0 <= i < length ==> r@[i] == old(self).memory_bus.spec_bus_read(
                    crate::memory_bus::spec_wrap_addr(address, i),
                ),
    {
        self.memory_bus.read_mem(address, length)
    }

    /// The instruction at an address, decoded without disturbing the
    /// bus.
    #[must_use]
    pub fn disassemble_at(&self, address: u16) -> (r: Instruction)
        requires
            self.wf(),
        ensures
            r.address == address,
            r.op == crate::instruction::spec_decode(
                self.memory_bus.spec_bus_read(address),
                self.memory_bus.spec_bus_read(crate::memory_bus::spec_wrap_addr(address, 1)),
                self.memory_bus.spec_bus_read(crate::memory_bus::spec_wrap_addr(address, 2)),
            ),
    {
        self.cpu.get_instruction_at_address(&self.memory_bus, address)
    }

    #[must_use]
    pub fn get_cartridge(&self) -> (r: &Cartridge)
        ensures
            r == &self.memory_bus.cartridge,
    {
        &self.memory_bus.cartridge
    }

    /// A copy of one of the two background maps, or `None` for any
    /// other number.
    #[must_use]
    pub fn get_tile_map(&self, map_number: u8) -> (r: Option<Vec<u8>>)
        requires
            self.wf(),
        ensures
            map_number == 0 ==> (r matches Option::Some(m) && m@
                == self.memory_bus.ppu.video_ram.data@.subrange(0x1800, 0x1c00)),
            map_number == 1 ==> (r matches Option::Some(m) && m@
                == self.memory_bus.ppu.video_ram.data@.subrange(0x1c00, 0x2000)),
            map_number >= 2 ==> r is None,
    {
        if map_number >= 2 {
            return Option::None;
        }
        let base: usize = if map_number == 0 {
            0x1800
        } else {
            0x1c00
        };
        let mut map: Vec<u8> = Vec::new();
        let mut i: usize = 0;
        while i < 0x400
            invariant
                i <= 0x400,
                base == 0x1800 || base == 0x1c00,
                self.wf(),
                map@.len() == i,
                forall|j: int| 0 <= j < i ==> map@[j] == self.memory_bus.ppu.video_ram.data@[base
                    + j],
            decreases 0x400 - i,
        {
            map.push(self.memory_bus.ppu.video_ram.data[base + i]);
            i = i + 1;
        }
        proof {
            assert(map@ =~= self.memory_bus.ppu.video_ram.data@.subrange(
                base as int,
                base + 0x400,
            ));
        }
        Option::Some(map)
    }

    /// The sixteen bytes of a tile, through either addressing mode.
    #[must_use]
    pub fn get_tile(&self, tile_address: TileAddressingMethod) -> (r: Tile)
        requires
            self.wf(),
        ensures
            r.wf(),
            r.lines@ == self.memory_bus.ppu.video_ram.data@.subrange(
                crate::ppu::spec_tile_base(tile_address),
                crate::ppu::spec_tile_base(tile_address) + 16,
            ),
    {
        self.memory_bus.ppu.video_ram.read_tile(tile_address)
    }

    /// The reset button: rebuilds everything except the cartridge.
    pub fn reset(&mut self)
        requires
            old(self).wf(),
        ensures
            final(self).wf(),
            final(self).cycle_count == 0,
            final(self).frame_count == 0,
            final(self).cpu == Cpu::spec_boot(),
            final(self).memory_bus.cartridge == old(self).memory_bus.cartridge,
            final(self).memory_bus.boot_rom@ == old(self).memory_bus.boot_rom@,
            final(self).memory_bus.boot_rom_disable == old(self).memory_bus.boot_rom_disable,
            forall|i: int| 0 <= i < 8192 ==> final(self).memory_bus.ram@[i] == 0,
            final(self).memory_bus.interrupt_flags == 0,
            final(self).memory_bus.interrupt_enable == 0,
            final(self).memory_bus.lcd.dma_running == false,
    {
        self.cycle_count = 0;
        self.frame_count = 0;
        self.cpu.reset();
        self.memory_bus.reset();
    }
}

} // verus!
