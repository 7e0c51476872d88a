use vstd::prelude::*;
use crate::apu::{Sound, SoundDigitalChannel};
use crate::cartridge::Cartridge;
use crate::debug::{AccessType, Breakpoint};
use crate::joypad::{spec_joypad_read, Joypad};
use crate::lcd::Lcd;
use crate::ppu::PictureProcessingUnit;
use crate::serial::Comms;
use crate::timer::Timer;

verus! {

/// What a read of an unmapped or prohibited address returns: the
/// address's second nibble, duplicated (0xfea0 reads 0xaa).
pub open spec fn spec_open_bus(address: u16) -> u8 {
    (((address / 16) % 16) * 16 + (address / 16) % 16) as u8
}

/// The first breakpoint in the list armed for this access and
/// covering this address.
pub open spec fn spec_matching_breakpoint(
    bps: Seq<Breakpoint>,
    address: u16,
    write: bool,
) -> Option<Breakpoint>
    decreases bps.len(),
{
    if bps.len() == 0 {
        Option::None
    } else {
        let bp = bps[0];
        if bp.address <= address && address < bp.address + bp.length && (if write {
            bp.access_type.spec_on_write()
        } else {
            bp.access_type.spec_on_read()
        }) {
            Option::Some(bp)
        } else {
            spec_matching_breakpoint(bps.drop_first(), address, write)
        }
    }
}

/// The 16-bit address `j` bytes past `address`, wrapping.
pub open spec fn spec_wrap_addr(address: u16, j: int) -> u16 {
    ((address + j) % 0x10000) as u16
}

/// The unified 16-bit memory bus: cartridge, video state, work and
/// high RAM, the memory-mapped peripherals, the interrupt registers,
/// the boot-ROM overlay, the open-bus latch and the OAM-DMA engine.
#[derive(Debug)]
pub struct MemoryBus {
    pub cartridge: Cartridge,
    /// 8 KiB of work RAM (0xc000..0xe000, echoed at 0xe000..0xfe00).
    pub ram: Vec<u8>,
    pub ppu: PictureProcessingUnit,
    pub joypad: Joypad,
    pub serial: Comms,
    pub timer_control: Timer,
    pub sound: Sound,
    pub lcd: Lcd,
    /// Nonzero once the boot-ROM overlay has been switched off.
    pub boot_rom_disable: u8,
    pub interrupt_flags: u8,
    /// 127 bytes at 0xff80..0xffff.
    pub high_ram: Vec<u8>,
    pub interrupt_enable: u8,
    /// The 256-byte overlay mapped over 0x0000..0x0100 until
    /// disabled.
    pub boot_rom: Vec<u8>,
    /// The last byte that crossed the bus; reads during OAM-DMA see
    /// it.
    pub last_bus_value: u8,
    pub memory_breakpoints: Vec<Breakpoint>,
    pub break_reason: Option<Breakpoint>,
    /// Dots owed to the DMA engine before its next byte (a byte moves
    /// every fourth dot).
    pub dma_pending_dots: u64,
}

impl MemoryBus {
    pub open spec fn wf(self) -> bool {
        &&& self.cartridge.wf()
        &&& self.ppu.wf()
        &&& self.joypad.wf()
        &&& self.serial.wf()
        &&& self.timer_control.wf()
        &&& self.sound.wf()
        &&& self.lcd.wf()
        &&& self.ram@.len() == 8192
        &&& self.high_ram@.len() == 127
        &&& self.boot_rom@.len() == 256
        &&& self.dma_pending_dots < 4
    }

    /// Whether an address lies in high RAM, the one region CPU
    /// accesses reach while OAM-DMA runs.
    pub open spec fn spec_is_high_ram(address: u16) -> bool {
        0xff80 <= address < 0xffff
    }

    /// The bus after reads alone: only the open-bus latch and the
    /// breakpoint scratch may differ.
    pub open spec fn spec_read_frame(pre: MemoryBus, post: MemoryBus) -> bool {
        post == (MemoryBus {
            last_bus_value: post.last_bus_value,
            break_reason: post.break_reason,
            ..pre
        })
    }

    /// The address table: the byte a CPU read of `address` observes,
    /// region by region. This is the single point that fixes how the
    /// 16-bit space is routed.
    pub open spec fn spec_bus_read(self, address: u16) -> u8 {
        if address < 0x4000 {
            if self.boot_rom_disable == 0 && address < 0x100 {
                self.boot_rom@[address as int]
            } else if address < self.cartridge.rom@.len() {
                self.cartridge.rom@[address as int]
            } else {
                0xff
            }
        } else if address < 0x8000 {
            let bank_offset = self.cartridge.spec_effective_bank() * 0x4000 + (address - 0x4000);
            if bank_offset < self.cartridge.rom@.len() {
                self.cartridge.rom@[bank_offset as int]
            } else {
                0xff
            }
        } else if address < 0xa000 {
            if self.ppu.in_use_by_lcd {
                0xff
            } else {
                self.ppu.video_ram.data@[address - 0x8000]
            }
        } else if address < 0xc000 {
            if !self.cartridge.enable_external_ram {
                0xff
            } else if address - 0xa000 < self.cartridge.external_ram@.len() {
                self.cartridge.external_ram@[address - 0xa000]
            } else {
                0
            }
        } else if address < 0xe000 {
            self.ram@[address - 0xc000]
        } else if address < 0xfe00 {
            self.ram@[address - 0xe000]
        } else if address < 0xfea0 {
            if self.ppu.in_use_by_lcd || self.ppu.oam_scan_lock {
                0xff
            } else {
                self.ppu.object_attribute_memory.data@[address - 0xfe00]
            }
        } else if address < 0xff00 {
            spec_open_bus(address)
        } else if address == 0xff00 {
            spec_joypad_read(self.joypad.input, self.joypad.selected)
        } else if 0xff01 <= address <= 0xff02 {
            if address == 0xff01 {
                self.serial.io_register
            } else {
                self.serial.control
            }
        } else if 0xff04 <= address <= 0xff07 {
            if address == 0xff04 {
                self.timer_control.divider
            } else if address == 0xff05 {
                self.timer_control.timer_counter
            } else if address == 0xff06 {
                self.timer_control.timer_reset_value
            } else {
                self.timer_control.control
            }
        } else if address == 0xff0f {
            self.interrupt_flags
        } else if 0xff10 <= address <= 0xff26 {
            crate::apu::spec_sound_read(self.sound, (address - 0xff10) as u16)
        } else if 0xff30 <= address <= 0xff3f {
            self.sound.digital_channel.wave_ram@[address - 0xff30]
        } else if 0xff40 <= address <= 0xff4b {
            self.lcd.spec_read((address - 0xff40) as u16)
        } else if address == 0xff50 {
            self.boot_rom_disable
        } else if 0xff80 <= address < 0xffff {
            self.high_ram@[address - 0xff80]
        } else if address == 0xffff {
            self.interrupt_enable
        } else {
            spec_open_bus(address)
        }
    }

    /// Reads one byte. During OAM-DMA every access outside high RAM
    /// sees the latched bus value instead; otherwise the byte follows
    /// the address table, is latched, and a covering read breakpoint
    /// (the first armed one) is recorded.
    pub fn read_u8(&mut self, address: u16) -> (r: u8)
        requires
            old(self).wf(),
        ensures
            final(self).wf(),
            MemoryBus::spec_read_frame(*old(self), *final(self)),
            old(self).lcd.dma_running && !MemoryBus::spec_is_high_ram(address) ==> r == old(
                self,
            ).last_bus_value && *final(self) == *old(self),
            !(old(self).lcd.dma_running && !MemoryBus::spec_is_high_ram(address)) ==> {
                &&& r == old(self).spec_bus_read(address)
                &&& *final(self) == (MemoryBus {
                    last_bus_value: r,
                    break_reason: if old(self).break_reason is Some {
                        old(self).break_reason
                    } else {
                        spec_matching_breakpoint(old(self).memory_breakpoints@, address, false)
                    },
                    ..*old(self)
                })
            },
    {
        if self.lcd.get_dma_running() && !(0xff80 <= address && address < 0xffff) {
            return self.last_bus_value;
        }
        if self.break_reason.is_none() {
            self.break_reason = self.check_breakpoints(address, false);
        }
        let value: u8 = if address < 0x4000 {
            if self.boot_rom_disable == 0 && address < 0x100 {
                self.boot_rom[address as usize]
            } else {
                self.cartridge.read_rom_bank_0(address)
            }
        } else if address < 0x8000 {
            self.cartridge.read_rom_selected_bank(address - 0x4000)
        } else if address < 0xa000 {
            self.ppu.read_video_ram(address - 0x8000)
        } else if address < 0xc000 {
            self.cartridge.read_from_external_ram(address - 0xa000)
        } else if address < 0xe000 {
            self.ram[(address - 0xc000) as usize]
        } else if address < 0xfe00 {
            self.ram[(address - 0xe000) as usize]
        } else if address < 0xfea0 {
            self.ppu.read_object_attribute_memory(address - 0xfe00)
        } else if address < 0xff00 {
            let nibble = ((address / 16) % 16) as u8;
            nibble * 16 + nibble
        } else if address == 0xff00 {
            self.joypad.read_u8()
        } else if 0xff01 <= address && address <= 0xff02 {
            self.serial.read_u8(address - 0xff01)
        } else if 0xff04 <= address && address <= 0xff07 {
            self.timer_control.read_u8(address - 0xff04)
        } else if address == 0xff0f {
            self.interrupt_flags
        } else if 0xff10 <= address && address <= 0xff26 {
            self.sound.read_u8(address - 0xff10)
        } else if 0xff30 <= address && address <= 0xff3f {
            self.sound.read_u8_from_waveform(address - 0xff30)
        } else if 0xff40 <= address && address <= 0xff4b {
            self.lcd.read_u8(address - 0xff40)
        } else if address == 0xff50 {
            self.boot_rom_disable
        } else if 0xff80 <= address && address < 0xffff {
            self.high_ram[(address - 0xff80) as usize]
        } else if address == 0xffff {
            self.interrupt_enable
        } else {
            let nibble = ((address / 16) % 16) as u8;
            nibble * 16 + nibble
        };
        self.last_bus_value = value;
        value
    }

    /// The bus state right after a write that reached the address
    /// table: the byte latched, a covering write breakpoint recorded,
    /// nothing else yet applied.
    pub open spec fn spec_latched(pre: MemoryBus, address: u16, byte: u8) -> MemoryBus {
        MemoryBus {
            last_bus_value: byte,
            break_reason: if pre.break_reason is Some {
                pre.break_reason
            } else {
                spec_matching_breakpoint(pre.memory_breakpoints@, address, true)
            },
            ..pre
        }
    }

    /// A write into 0x0000..0x8000: only the MBC registers move.
    pub open spec fn spec_write_rom_area(pre: MemoryBus, post: MemoryBus, address: u16, byte: u8) -> bool {
        &&& post == (MemoryBus { cartridge: post.cartridge, ..MemoryBus::spec_latched(pre, address, byte) })
        &&& post.cartridge == MemoryBus::spec_cartridge_control_write(pre.cartridge, address, byte)
    }

    /// What an MBC control write does to the cartridge state.
    pub open spec fn spec_cartridge_control_write(c: Cartridge, address: u16, byte: u8) -> Cartridge {
        if address < 0x2000 {
            Cartridge { enable_external_ram: byte % 16 == 0xa, ..c }
        } else if address < 0x4000 {
            Cartridge {
                rom_bank_selected: if byte % 32 == 0 {
                    1u8
                } else {
                    (byte % 32) as u8
                },
                ..c
            }
        } else if address < 0x6000 {
            Cartridge { upper_bank_bits: (byte % 4) as u8, ..c }
        } else {
            Cartridge { advanced_banking_mode: byte % 2 == 1, ..c }
        }
    }

    /// A write into video RAM: dropped while the LCD owns it.
    pub open spec fn spec_write_vram(pre: MemoryBus, post: MemoryBus, address: u16, byte: u8) -> bool {
        &&& post == (MemoryBus { ppu: post.ppu, ..MemoryBus::spec_latched(pre, address, byte) })
        &&& (pre.ppu.in_use_by_lcd ==> post.ppu == pre.ppu)
        &&& (!pre.ppu.in_use_by_lcd ==> post.ppu == (PictureProcessingUnit {
            video_ram: post.ppu.video_ram,
            ..pre.ppu
        }) && post.ppu.video_ram.data@ == pre.ppu.video_ram.data@.update(address - 0x8000, byte))
    }

    /// A write into external cartridge RAM: dropped while disabled or
    /// beyond the fitted size.
    pub open spec fn spec_write_cart_ram(pre: MemoryBus, post: MemoryBus, address: u16, byte: u8) -> bool {
        &&& post == (MemoryBus { cartridge: post.cartridge, ..MemoryBus::spec_latched(pre, address, byte) })
        &&& (pre.cartridge.enable_external_ram && address - 0xa000 < pre.cartridge.external_ram@.len()
            ==> post.cartridge == (Cartridge {
            external_ram: post.cartridge.external_ram,
            ..pre.cartridge
        }) && post.cartridge.external_ram@ == pre.cartridge.external_ram@.update(address - 0xa000, byte))
        &&& (!(pre.cartridge.enable_external_ram && address - 0xa000 < pre.cartridge.external_ram@.len())
            ==> post.cartridge == pre.cartridge)
    }

    /// A write into work RAM (or its echo): the named cell changes.
    pub open spec fn spec_write_wram(pre: MemoryBus, post: MemoryBus, address: u16, byte: u8, cell: int) -> bool {
        &&& post == (MemoryBus { ram: post.ram, ..MemoryBus::spec_latched(pre, address, byte) })
        &&& post.ram@ == pre.ram@.update(cell, byte)
    }

    /// A write into OAM: dropped while the LCD owns it.
    pub open spec fn spec_write_oam(pre: MemoryBus, post: MemoryBus, address: u16, byte: u8) -> bool {
        &&& post == (MemoryBus { ppu: post.ppu, ..MemoryBus::spec_latched(pre, address, byte) })
        &&& (pre.ppu.in_use_by_lcd || pre.ppu.oam_scan_lock ==> post.ppu == pre.ppu)
        &&& (!(pre.ppu.in_use_by_lcd || pre.ppu.oam_scan_lock) ==> post.ppu
            == (PictureProcessingUnit {
            object_attribute_memory: post.ppu.object_attribute_memory,
            ..pre.ppu
        }) && post.ppu.object_attribute_memory.data@ == pre.ppu.object_attribute_memory.data@.update(
            address - 0xfe00,
            byte,
        ))
    }

    /// What a serial register write does.
    pub open spec fn spec_serial_write(s: Comms, address: u16, byte: u8) -> Comms {
        if address == 0xff01 {
            Comms { io_register: byte, ..s }
        } else if byte / 128 == 1 {
            Comms { control: byte, io_register_on_control_byte_write: s.io_register, ..s }
        } else {
            Comms { control: byte, ..s }
        }
    }

    /// What a timer register write does.
    pub open spec fn spec_timer_write(t: Timer, address: u16, byte: u8) -> Timer {
        if address == 0xff04 {
            Timer { divider: 0, ..t }
        } else if address == 0xff05 {
            Timer { timer_counter: byte, ..t }
        } else if address == 0xff06 {
            Timer { timer_reset_value: byte, ..t }
        } else {
            Timer { control: (byte % 8) as u8, ..t }
        }
    }

    /// What an LCD register write does (LY is read-only; STAT keeps
    /// its scan bits; the DMA register starts a transfer).
    pub open spec fn spec_lcd_write(l: Lcd, address: u16, byte: u8) -> Lcd {
        if address == 0xff40 {
            Lcd { control: byte, ..l }
        } else if address == 0xff41 {
            Lcd { status: ((byte / 8) * 8 + l.status % 8) as u8, ..l }
        } else if address == 0xff42 {
            Lcd { scroll_y: byte, ..l }
        } else if address == 0xff43 {
            Lcd { scroll_x: byte, ..l }
        } else if address == 0xff44 {
            l
        } else if address == 0xff45 {
            Lcd { ly_compare: byte, ..l }
        } else if address == 0xff46 {
            Lcd { dma_start_high_byte: byte, dma_low_byte: 0, dma_running: true, ..l }
        } else if address == 0xff47 {
            Lcd { background_palette: byte, ..l }
        } else if address == 0xff48 {
            Lcd { object_palette_0: byte, ..l }
        } else if address == 0xff49 {
            Lcd { object_palette_1: byte, ..l }
        } else if address == 0xff4a {
            Lcd { window_y: byte, ..l }
        } else {
            Lcd { window_x: byte, ..l }
        }
    }

    /// A write into the wave RAM behind 0xff30..=0xff3f.
    pub open spec fn spec_write_wave(pre: MemoryBus, post: MemoryBus, address: u16, byte: u8) -> bool {
        &&& post == (MemoryBus { sound: post.sound, ..MemoryBus::spec_latched(pre, address, byte) })
        &&& post.sound == (Sound {
            digital_channel: SoundDigitalChannel {
                wave_ram: post.sound.digital_channel.wave_ram,
                ..pre.sound.digital_channel
            },
            ..pre.sound
        })
        &&& post.sound.digital_channel.wave_ram@ == pre.sound.digital_channel.wave_ram@.update(
            address - 0xff30,
            byte,
        )
    }

    /// A write into high RAM.
    pub open spec fn spec_write_hram(pre: MemoryBus, post: MemoryBus, address: u16, byte: u8) -> bool {
        &&& post == (MemoryBus { high_ram: post.high_ram, ..MemoryBus::spec_latched(pre, address, byte) })
        &&& post.high_ram@ == pre.high_ram@.update(address - 0xff80, byte)
    }

    /// A bus write's effect does not depend on the open-bus latch or
    /// breakpoint scratch of the observed pre-state: if the effect
    /// holds from a latch-shifted sibling of `base`, it holds from
    /// the sibling carrying the post-state's own latch fields.
    pub proof fn lemma_write_effect_latch_shift(base: MemoryBus, mid: MemoryBus, post: MemoryBus)
        requires
            mid == (MemoryBus {
                last_bus_value: mid.last_bus_value,
                break_reason: mid.break_reason,
                ..base
            }),
        ensures
            forall|a: u16, v: u8|
                #[trigger] MemoryBus::spec_write_effect(mid, post, a, v)
                    ==> MemoryBus::spec_write_effect(
                    (MemoryBus {
                        last_bus_value: post.last_bus_value,
                        break_reason: post.break_reason,
                        ..base
                    }),
                    post,
                    a,
                    v,
                ),
    {
    }

    /// The data effect of a bus write, with the open-bus latch and
    /// breakpoint bookkeeping of the pre-state left open: what a
    /// write leaves behind when other bus traffic (a fetch, an
    /// operand read) came between observing `pre` and the write.
    pub open spec fn spec_write_data_effect(
        pre: MemoryBus,
        post: MemoryBus,
        address: u16,
        byte: u8,
    ) -> bool {
        exists|l: u8, b: Option<Breakpoint>|
            MemoryBus::spec_write_effect(
                MemoryBus { last_bus_value: l, break_reason: b, ..pre },
                post,
                address,
                byte,
            )
    }

    /// The whole effect of a bus write that reached the address
    /// table, region by region.
    pub open spec fn spec_write_effect(pre: MemoryBus, post: MemoryBus, address: u16, byte: u8) -> bool {
        let latched = MemoryBus::spec_latched(pre, address, byte);
        &&& (address < 0x8000 ==> MemoryBus::spec_write_rom_area(pre, post, address, byte))
        &&& (0x8000 <= address < 0xa000 ==> MemoryBus::spec_write_vram(pre, post, address, byte))
        &&& (0xa000 <= address < 0xc000 ==> MemoryBus::spec_write_cart_ram(pre, post, address, byte))
        &&& (0xc000 <= address < 0xe000 ==> MemoryBus::spec_write_wram(pre, post, address, byte, address - 0xc000))
        &&& (0xe000 <= address < 0xfe00 ==> MemoryBus::spec_write_wram(pre, post, address, byte, address - 0xe000))
        &&& (0xfe00 <= address < 0xfea0 ==> MemoryBus::spec_write_oam(pre, post, address, byte))
        &&& (0xfea0 <= address < 0xff00 ==> post == latched)
        &&& (address == 0xff00 ==> post == (MemoryBus {
            joypad: Joypad { selected: ((byte / 16) % 4 * 16) as u8, ..pre.joypad },
            ..latched
        }))
        &&& (0xff01 <= address <= 0xff02 ==> post == (MemoryBus {
            serial: MemoryBus::spec_serial_write(pre.serial, address, byte),
            ..latched
        }))
        &&& (0xff04 <= address <= 0xff07 ==> post == (MemoryBus {
            timer_control: MemoryBus::spec_timer_write(pre.timer_control, address, byte),
            ..latched
        }))
        &&& (address == 0xff0f ==> post == (MemoryBus { interrupt_flags: byte, ..latched }))
        &&& (0xff10 <= address <= 0xff26 ==> post == (MemoryBus { sound: post.sound, ..latched })
            && post.sound.digital_channel.wave_ram@ == pre.sound.digital_channel.wave_ram@)
        &&& (0xff30 <= address <= 0xff3f ==> MemoryBus::spec_write_wave(pre, post, address, byte))
        &&& (0xff40 <= address <= 0xff4b ==> post == (MemoryBus {
            lcd: MemoryBus::spec_lcd_write(pre.lcd, address, byte),
            dma_pending_dots: if address == 0xff46 {
                0u64
            } else {
                pre.dma_pending_dots
            },
            ..latched
        }))
        &&& (address == 0xff50 ==> post == (MemoryBus { boot_rom_disable: byte, ..latched }))
        &&& (0xff80 <= address < 0xffff ==> MemoryBus::spec_write_hram(pre, post, address, byte))
        &&& (address == 0xffff ==> post == (MemoryBus { interrupt_enable: byte, ..latched }))
        &&& ((address == 0xff03 || (0xff08 <= address <= 0xff0e) || (0xff27 <= address <= 0xff2f)
            || (0xff4c <= address <= 0xff4f) || (0xff51 <= address <= 0xff7f)) ==> post == latched)
    }

    /// What storing a little-endian word at `address` leaves behind,
    /// for a word wholly inside work RAM, its echo, or high RAM: the
    /// two cells hold the word's bytes and, beyond the bus latch and
    /// the breakpoint scratch, nothing else moves.
    pub open spec fn spec_word_write_effect(
        pre: MemoryBus,
        post: MemoryBus,
        address: u16,
        v: u16,
    ) -> bool {
        &&& (0xc000 <= address && address + 1 < 0xe000 ==> post.ram@ == pre.ram@.update(
            address - 0xc000,
            (v % 256) as u8,
        ).update(address + 1 - 0xc000, (v / 256) as u8) && post == (MemoryBus {
            ram: post.ram,
            last_bus_value: post.last_bus_value,
            break_reason: post.break_reason,
            ..pre
        }))
        &&& (0xe000 <= address && address + 1 < 0xfe00 ==> post.ram@ == pre.ram@.update(
            address - 0xe000,
            (v % 256) as u8,
        ).update(address + 1 - 0xe000, (v / 256) as u8) && post == (MemoryBus {
            ram: post.ram,
            last_bus_value: post.last_bus_value,
            break_reason: post.break_reason,
            ..pre
        }))
        &&& (0xff80 <= address && address + 1 < 0xffff ==> post.high_ram@ == pre.high_ram@.update(
            address - 0xff80,
            (v % 256) as u8,
        ).update(address + 1 - 0xff80, (v / 256) as u8) && post == (MemoryBus {
            high_ram: post.high_ram,
            last_bus_value: post.last_bus_value,
            break_reason: post.break_reason,
            ..pre
        }))
    }

    /// Writes one byte. During OAM-DMA every access outside high RAM
    /// is dropped; otherwise the write routes by the address table
    /// (ROM-area writes drive the MBC registers, unmapped writes fall
    /// away), the byte is latched, and a covering write breakpoint is
    /// recorded.
    pub fn write_u8(&mut self, address: u16, byte: u8)
        requires
            old(self).wf(),
        ensures
            final(self).wf(),
            old(self).lcd.dma_running && !MemoryBus::spec_is_high_ram(address) ==> *final(self)
                == *old(self),
            !(old(self).lcd.dma_running && !MemoryBus::spec_is_high_ram(address))
                ==> MemoryBus::spec_write_effect(*old(self), *final(self), address, byte),
    {
        if self.lcd.get_dma_running() && !(0xff80 <= address && address < 0xffff) {
            return ;
        }
        if self.break_reason.is_none() {
            self.break_reason = self.check_breakpoints(address, true);
        }
        if address < 0x4000 {
            self.cartridge.write_rom_bank_0(address, byte);
        } else if address < 0x8000 {
            self.cartridge.write_rom_selected_bank(address - 0x4000, byte);
        } else if address < 0xa000 {
            self.ppu.write_video_ram(address - 0x8000, byte);
        } else if address < 0xc000 {
            self.cartridge.write_to_external_ram(address - 0xa000, byte);
        } else if address < 0xe000 {
            self.ram.set((address - 0xc000) as usize, byte);
        } else if address < 0xfe00 {
            self.ram.set((address - 0xe000) as usize, byte);
        } else if address < 0xfea0 {
            self.ppu.write_object_attribute_memory(address - 0xfe00, byte);
        } else if address < 0xff00 {
        } else if address == 0xff00 {
            self.joypad.write_u8(byte);
        } else if 0xff01 <= address && address <= 0xff02 {
            self.serial.write_u8(address - 0xff01, byte);
        } else if 0xff04 <= address && address <= 0xff07 {
            self.timer_control.write_u8(address - 0xff04, byte);
        } else if address == 0xff0f {
            self.interrupt_flags = byte;
        } else if 0xff10 <= address && address <= 0xff26 {
            self.sound.write_u8(address - 0xff10, byte);
        } else if 0xff30 <= address && address <= 0xff3f {
            self.sound.write_u8_from_waveform(address - 0xff30, byte);
        } else if 0xff40 <= address && address <= 0xff4b {
            if address == 0xff46 {
                self.dma_pending_dots = 0;
            }
            self.lcd.write_u8(address - 0xff40, byte);
        } else if address == 0xff50 {
            self.boot_rom_disable = byte;
        } else if 0xff80 <= address && address < 0xffff {
            self.high_ram.set((address - 0xff80) as usize, byte);
        } else if address == 0xffff {
            self.interrupt_enable = byte;
        }
        self.last_bus_value = byte;
    }


    /// Builds a bus around a cartridge. With a boot ROM supplied the
    /// 256-byte overlay starts enabled; without one it starts
    /// disabled.
    pub fn new(cartridge: Cartridge, boot_rom_image: Option<Vec<u8>>) -> (r: MemoryBus)
        requires
            cartridge.wf(),
            boot_rom_image matches Option::Some(b) ==> b@.len() == 256,
        ensures
            r.wf(),
            r.cartridge == cartridge,
            r.boot_rom_disable == (if boot_rom_image is Some {
                0int
            } else {
                1int
            }),
            boot_rom_image matches Option::Some(b) ==> r.boot_rom@ == b@,
            forall|i: int| 0 <= i < 8192 ==> r.ram@[i] == 0,
            forall|i: int| 0 <= i < 127 ==> r.high_ram@[i] == 0,
            r.interrupt_flags == 0,
            r.interrupt_enable == 0,
            r.lcd.dma_running == false,
            r.serial.out_buffer@.len() == 0,
            r.memory_breakpoints@.len() == 0,
            r.break_reason is None,
    {
        let mut ram: Vec<u8> = Vec::new();
        let mut i: usize = 0;
        while i < 8192
            invariant
                i <= 8192,
                ram@.len() == i,
                forall|j: int| 0 <= j < i ==> ram@[j] == 0,
            decreases 8192 - i,
        {
            ram.push(0);
            i = i + 1;
        }
        let mut high_ram: Vec<u8> = Vec::new();
        let mut k: usize = 0;
        while k < 127
            invariant
                k <= 127,
                high_ram@.len() == k,
                forall|j: int| 0 <= j < k ==> high_ram@[j] == 0,
            decreases 127 - k,
        {
            high_ram.push(0);
            k = k + 1;
        }
        let boot_rom_disable: u8;
        let boot_rom: Vec<u8>;
        match boot_rom_image {
            Option::Some(image) => {
                boot_rom_disable = 0;
                boot_rom = image;
            },
            Option::None => {
                boot_rom_disable = 1;
                let mut zeros: Vec<u8> = Vec::new();
                let mut z: usize = 0;
                while z < 256
                    invariant
                        z <= 256,
                        zeros@.len() == z,
                    decreases 256 - z,
                {
                    zeros.push(0);
                    z = z + 1;
                }
                boot_rom = zeros;
            },
        }
        MemoryBus {
            cartridge,
            ram,
            ppu: PictureProcessingUnit::default(),
            joypad: Joypad::default(),
            serial: Comms::default(),
            timer_control: Timer::default(),
            sound: Sound::default(),
            lcd: Lcd::default(),
            boot_rom_disable,
            interrupt_flags: 0,
            high_ram,
            interrupt_enable: 0,
            boot_rom,
            last_bus_value: 0,
            memory_breakpoints: Vec::new(),
            break_reason: Option::None,
            dma_pending_dots: 0,
        }
    }

    /// Rebuilds every component except the cartridge, the boot ROM
    /// image and the overlay latch, as the reset button does.
    pub fn reset(&mut self)
        requires
            old(self).wf(),
        ensures
            final(self).wf(),
            final(self).cartridge == old(self).cartridge,
            final(self).boot_rom@ == old(self).boot_rom@,
            final(self).boot_rom_disable == old(self).boot_rom_disable,
            forall|i: int| 0 <= i < 8192 ==> final(self).ram@[i] == 0,
            final(self).interrupt_flags == 0,
            final(self).interrupt_enable == 0,
            final(self).lcd.dma_running == false,
    {
        let mut ram: Vec<u8> = Vec::new();
        let mut i: usize = 0;
        while i < 8192
            invariant
                i <= 8192,
                ram@.len() == i,
                forall|j: int| 0 <= j < i ==> ram@[j] == 0,
            decreases 8192 - i,
        {
            ram.push(0);
            i = i + 1;
        }
        let mut high_ram: Vec<u8> = Vec::new();
        let mut k: usize = 0;
        while k < 127
            invariant
                k <= 127,
                high_ram@.len() == k,
            decreases 127 - k,
        {
            high_ram.push(0);
            k = k + 1;
        }
        self.ram = ram;
        self.high_ram = high_ram;
        self.ppu = PictureProcessingUnit::default();
        self.joypad = Joypad::default();
        self.serial = Comms::default();
        self.timer_control = Timer::default();
        self.sound = Sound::default();
        self.lcd = Lcd::default();
        self.interrupt_flags = 0;
        self.interrupt_enable = 0;
        self.last_bus_value = 0;
        self.break_reason = Option::None;
        self.dma_pending_dots = 0;
    }

    /// A pure bus read: the byte the address table yields, with no
    /// latching, no breakpoints and no DMA arbitration.
    #[must_use]
    pub fn peek(&self, address: u16) -> (r: u8)
        requires
            self.wf(),
        ensures
            r == self.spec_bus_read(address),
    {
        if address < 0x4000 {
            if self.boot_rom_disable == 0 && address < 0x100 {
                self.boot_rom[address as usize]
            } else {
                self.cartridge.read_rom_bank_0(address)
            }
        } else if address < 0x8000 {
            self.cartridge.read_rom_selected_bank(address - 0x4000)
        } else if address < 0xa000 {
            self.ppu.read_video_ram(address - 0x8000)
        } else if address < 0xc000 {
            self.cartridge.read_from_external_ram(address - 0xa000)
        } else if address < 0xe000 {
            self.ram[(address - 0xc000) as usize]
        } else if address < 0xfe00 {
            self.ram[(address - 0xe000) as usize]
        } else if address < 0xfea0 {
            self.ppu.read_object_attribute_memory(address - 0xfe00)
        } else if address < 0xff00 {
            let nibble = ((address / 16) % 16) as u8;
            nibble * 16 + nibble
        } else if address == 0xff00 {
            self.joypad.read_u8()
        } else if 0xff01 <= address && address <= 0xff02 {
            self.serial.read_u8(address - 0xff01)
        } else if 0xff04 <= address && address <= 0xff07 {
            self.timer_control.read_u8(address - 0xff04)
        } else if address == 0xff0f {
            self.interrupt_flags
        } else if 0xff10 <= address && address <= 0xff26 {
            self.sound.read_u8(address - 0xff10)
        } else if 0xff30 <= address && address <= 0xff3f {
            self.sound.read_u8_from_waveform(address - 0xff30)
        } else if 0xff40 <= address && address <= 0xff4b {
            self.lcd.read_u8(address - 0xff40)
        } else if address == 0xff50 {
            self.boot_rom_disable
        } else if 0xff80 <= address && address < 0xffff {
            self.high_ram[(address - 0xff80) as usize]
        } else if address == 0xffff {
            self.interrupt_enable
        } else {
            let nibble = ((address / 16) % 16) as u8;
            nibble * 16 + nibble
        }
    }

    /// A state change that touches only OAM, the DMA progress fields
    /// and the bus latch leaves every read below OAM unchanged.
    proof fn lemma_read_below_oam_stable(pre: MemoryBus, post: MemoryBus, address: u16)
        requires
            address < 0xfe00,
            post == (MemoryBus {
                ppu: post.ppu,
                lcd: post.lcd,
                last_bus_value: post.last_bus_value,
                dma_pending_dots: post.dma_pending_dots,
                ..pre
            }),
            post.ppu == (PictureProcessingUnit {
                object_attribute_memory: post.ppu.object_attribute_memory,
                ..pre.ppu
            }),
            post.lcd == (Lcd {
                dma_low_byte: post.lcd.dma_low_byte,
                dma_running: post.lcd.dma_running,
                ..pre.lcd
            }),
        ensures
            post.spec_bus_read(address) == pre.spec_bus_read(address),
    {
    }

    /// Runs the OAM-DMA engine for `cycles` dots: one byte moves from
    /// the source block into OAM every fourth dot until 160 bytes have
    /// moved. With the source below 0xfe00, every moved byte equals
    /// what the address table said at entry.
    pub fn run_dma(&mut self, cycles: u64)
        requires
            old(self).wf(),
            cycles <= 0x10000,
        ensures
            final(self).wf(),
            !old(self).lcd.dma_running ==> *final(self) == *old(self),
            old(self).lcd.dma_running ==> ({
                let total = old(self).dma_pending_dots + cycles;
                let remaining = 160 - old(self).lcd.dma_low_byte;
                let n = if total / 4 < remaining {
                    total / 4
                } else {
                    remaining as int
                };
                &&& *final(self) == (MemoryBus {
                    ppu: final(self).ppu,
                    lcd: final(self).lcd,
                    last_bus_value: final(self).last_bus_value,
                    dma_pending_dots: final(self).dma_pending_dots,
                    ..*old(self)
                })
                &&& final(self).ppu == (PictureProcessingUnit {
                    object_attribute_memory: final(self).ppu.object_attribute_memory,
                    ..old(self).ppu
                })
                &&& final(self).lcd == (Lcd {
                    dma_low_byte: (old(self).lcd.dma_low_byte + n) as u8,
                    dma_running: old(self).lcd.dma_low_byte + n < 160,
                    ..old(self).lcd
                })
                &&& final(self).dma_pending_dots == (if old(self).lcd.dma_low_byte + n < 160 {
                    total % 4
                } else {
                    0int
                })
                &&& final(self).ppu.object_attribute_memory.data@.len() == 160
                &&& (forall|i: int|
                    0 <= i < 160 && !(old(self).lcd.dma_low_byte <= i < old(self).lcd.dma_low_byte
                        + n) ==> final(self).ppu.object_attribute_memory.data@[i] == old(
                        self,
                    ).ppu.object_attribute_memory.data@[i])
                &&& (old(self).lcd.dma_start_high_byte < 0xfe ==> forall|i: int|
                    old(self).lcd.dma_low_byte <= i < old(self).lcd.dma_low_byte + n ==> final(self).ppu.object_attribute_memory.data@[i] == old(self).spec_bus_read(
                        (old(self).lcd.dma_start_high_byte * 256 + i) as u16,
                    ))
            }),
    {
        if !self.lcd.get_dma_running() {
            return ;
        }
        let total: u64 = self.dma_pending_dots + cycles;
        let low_start: u8 = self.lcd.dma_low_byte;
        let remaining: u64 = 160 - low_start as u64;
        let n: u64 = if total / 4 < remaining {
            total / 4
        } else {
            remaining
        };
        self.dma_pending_dots = if low_start as u64 + n < 160 {
            total % 4
        } else {
            0
        };
        let source_base: u16 = self.lcd.dma_start_high_byte as u16;
        let mut k: u64 = 0;
        while k < n
            invariant
                k <= n,
                n <= remaining,
                remaining == 160 - low_start,
                low_start + n <= 160,
                self.wf(),
                source_base == old(self).lcd.dma_start_high_byte,
                self.lcd.dma_running == (low_start + k < 160),
                self.lcd.dma_low_byte == low_start + k,
                self.dma_pending_dots == (if low_start + n < 160 {
                    (old(self).dma_pending_dots + cycles) % 4
                } else {
                    0int
                }),
                *self == (MemoryBus {
                    ppu: self.ppu,
                    lcd: self.lcd,
                    last_bus_value: self.last_bus_value,
                    dma_pending_dots: self.dma_pending_dots,
                    ..*old(self)
                }),
                self.ppu == (PictureProcessingUnit {
                    object_attribute_memory: self.ppu.object_attribute_memory,
                    ..old(self).ppu
                }),
                self.lcd == (Lcd {
                    dma_low_byte: self.lcd.dma_low_byte,
                    dma_running: self.lcd.dma_running,
                    ..old(self).lcd
                }),
                self.ppu.object_attribute_memory.data@.len() == 160,
                forall|i: int|
                    0 <= i < 160 && !(low_start <= i < low_start + k)
                        ==> self.ppu.object_attribute_memory.data@[i] == old(
                        self,
                    ).ppu.object_attribute_memory.data@[i],
                source_base < 0xfe ==> forall|i: int|
                    low_start <= i < low_start + k
                        ==> self.ppu.object_attribute_memory.data@[i] == old(self).spec_bus_read(
                        (source_base * 256 + i) as u16,
                    ),
            decreases n - k,
        {
            let low = self.lcd.dma_low_byte;
            let source: u16 = source_base * 256 + low as u16;
            let value = self.peek(source);
            proof {
                if source_base < 0xfe {
                    MemoryBus::lemma_read_below_oam_stable(*old(self), *self, source);
                }
            }
            self.ppu.object_attribute_memory.write(low as u16, value);
            self.last_bus_value = value;
            self.lcd.tick_dma();
            k = k + 1;
        }
    }

    #[must_use]
    pub fn check_breakpoints(&self, address: u16, write: bool) -> (r: Option<Breakpoint>)
        ensures
            r == spec_matching_breakpoint(self.memory_breakpoints@, address, write),
    {
        proof {
            assert(self.memory_breakpoints@.skip(0) =~= self.memory_breakpoints@);
        }
        let mut i: usize = 0;
        while i < self.memory_breakpoints.len()
            invariant
                i <= self.memory_breakpoints@.len(),
                spec_matching_breakpoint(self.memory_breakpoints@, address, write)
                    == spec_matching_breakpoint(
                    self.memory_breakpoints@.skip(i as int),
                    address,
                    write,
                ),
            decreases self.memory_breakpoints@.len() - i,
        {
            let bp = self.memory_breakpoints[i];
            let armed = if write {
                bp.access_type.on_write()
            } else {
                bp.access_type.on_read()
            };
            proof {
                assert(self.memory_breakpoints@.skip(i as int).drop_first()
                    =~= self.memory_breakpoints@.skip(i + 1));
            }
            if bp.matches_address(address) && armed {
                return Option::Some(bp);
            }
            i = i + 1;
        }
        Option::None
    }

    /// Only read and write breakpoints live on the bus; execute
    /// breakpoints are the orchestrator's.
    pub fn add_breakpoint(&mut self, bp: Breakpoint)
        ensures
            bp.access_type matches AccessType::Execute ==> *final(self) == *old(self),
            !(bp.access_type matches AccessType::Execute) ==> *final(self) == (MemoryBus {
                memory_breakpoints: final(self).memory_breakpoints,
                ..*old(self)
            }) && final(self).memory_breakpoints@ == old(self).memory_breakpoints@.push(bp),
            old(self).wf() ==> final(self).wf(),
    {
        if matches!(bp.access_type, AccessType::Execute) {
            return ;
        }
        self.memory_breakpoints.push(bp);
    }

    #[must_use]
    pub fn get_break_reason(&mut self) -> (r: Option<Breakpoint>)
        ensures
            r == old(self).break_reason,
            *final(self) == (MemoryBus { break_reason: Option::None, ..*old(self) }),
            old(self).wf() ==> final(self).wf(),
    {
        let reason = self.break_reason;
        self.break_reason = Option::None;
        reason
    }

    /// Reads a little-endian 16-bit value as two bus reads.
    #[must_use]
    pub fn read_u16(&mut self, address: u16) -> (r: u16)
        requires
            old(self).wf(),
        ensures
            final(self).wf(),
            MemoryBus::spec_read_frame(*old(self), *final(self)),
            !old(self).lcd.dma_running ==> r == old(self).spec_bus_read(address) + 256 * old(
                self,
            ).spec_bus_read(spec_wrap_addr(address, 1)),
            final(self).ram@ == old(self).ram@,
            final(self).high_ram@ == old(self).high_ram@,
            final(self).cartridge == old(self).cartridge,
            final(self).ppu == old(self).ppu,
            final(self).lcd == old(self).lcd,
    {
        let byte1 = self.read_u8(address);
        let byte2 = self.read_u8(((address as u32 + 1) % 0x10000) as u16);
        byte1 as u16 + 256 * byte2 as u16
    }

    /// Writes a little-endian 16-bit value as two bus writes; for a
    /// word wholly inside work RAM, its echo, or high RAM the stored
    /// bytes are stated exactly.
    pub fn write_u16(&mut self, address: u16, v: u16)
        requires
            old(self).wf(),
        ensures
            final(self).wf(),
            !old(self).lcd.dma_running ==> MemoryBus::spec_word_write_effect(
                *old(self),
                *final(self),
                address,
                v,
            ),
    {
        self.write_u8(address, (v % 256) as u8);
        self.write_u8(((address as u32 + 1) % 0x10000) as u16, (v / 256) as u8);
    }

    /// Reads `length` consecutive bytes (addresses wrap).
    #[must_use]
    pub fn read_mem(&mut self, address: u16, length: u16) -> (r: Vec<u8>)
        requires
            old(self).wf(),
        ensures
            final(self).wf(),
            MemoryBus::spec_read_frame(*old(self), *final(self)),
            r@.len() == length,
            !old(self).lcd.dma_running ==> forall|i: int|
                0 <= i < length ==> r@[i] == old(self).spec_bus_read(spec_wrap_addr(address, i)),
    {
        let mut collected: Vec<u8> = Vec::new();
        let mut i: u16 = 0;
        while i < length
            invariant
                i <= length,
                self.wf(),
                MemoryBus::spec_read_frame(*old(self), *self),
                collected@.len() == i,
                self.memory_breakpoints@ == old(self).memory_breakpoints@,
                self.ram@ == old(self).ram@,
                self.high_ram@ == old(self).high_ram@,
                self.boot_rom@ == old(self).boot_rom@,
                self.cartridge == old(self).cartridge,
                self.ppu == old(self).ppu,
                self.lcd == old(self).lcd,
                self.joypad == old(self).joypad,
                self.serial == old(self).serial,
                self.timer_control == old(self).timer_control,
                self.sound == old(self).sound,
                self.interrupt_flags == old(self).interrupt_flags,
                self.interrupt_enable == old(self).interrupt_enable,
                self.boot_rom_disable == old(self).boot_rom_disable,
                !old(self).lcd.dma_running ==> forall|j: int|
                    0 <= j < i ==> collected@[j] == old(self).spec_bus_read(
                        spec_wrap_addr(address, j),
                    ),
            decreases length - i,
        {
            proof {
                assert(self.spec_bus_read(spec_wrap_addr(address, i as int)) == old(
                    self,
                ).spec_bus_read(spec_wrap_addr(address, i as int)));
            }
            let byte = self.read_u8(((address as u32 + i as u32) % 0x10000) as u16);
            collected.push(byte);
            i = i + 1;
        }
        collected
    }

    /// Writes the bytes to consecutive addresses (addresses wrap).
    /// A run wholly inside work RAM stores exactly its bytes, as
    /// `spec_store_bytes` says.
    pub fn write_mem(&mut self, address: u16, bytes: &Vec<u8>)
        requires
            old(self).wf(),
            bytes@.len() <= 0x10000,
        ensures
            final(self).wf(),
            !old(self).lcd.dma_running && 0xc000 <= address && address + bytes@.len() <= 0xe000
                ==> final(self).ram@ == spec_store_bytes(
                old(self).ram@,
                address - 0xc000,
                bytes@,
            ) && *final(self) == (MemoryBus {
                ram: final(self).ram,
                last_bus_value: final(self).last_bus_value,
                break_reason: final(self).break_reason,
                ..*old(self)
            }),
            !old(self).lcd.dma_running && 0xff80 <= address && address + bytes@.len() <= 0xffff
                ==> final(self).high_ram@ == spec_store_bytes(
                old(self).high_ram@,
                address - 0xff80,
                bytes@,
            ) && *final(self) == (MemoryBus {
                high_ram: final(self).high_ram,
                last_bus_value: final(self).last_bus_value,
                break_reason: final(self).break_reason,
                ..*old(self)
            }),
    {
        let ghost in_wram = !old(self).lcd.dma_running && 0xc000 <= address && address
            + bytes@.len() <= 0xe000;
        let ghost in_hram = !old(self).lcd.dma_running && 0xff80 <= address && address
            + bytes@.len() <= 0xffff;
        proof {
            assert(bytes@.take(0) =~= Seq::<u8>::empty());
            if in_wram {
                assert(spec_store_bytes(old(self).ram@, address - 0xc000, bytes@.take(0))
                    =~= old(self).ram@);
            }
            if in_hram {
                assert(spec_store_bytes(old(self).high_ram@, address - 0xff80, bytes@.take(0))
                    =~= old(self).high_ram@);
            }
        }
        let mut i: usize = 0;
        while i < bytes.len()
            invariant
                i <= bytes@.len(),
                bytes@.len() <= 0x10000,
                self.wf(),
                old(self).wf(),
                in_wram == (!old(self).lcd.dma_running && 0xc000 <= address && address
                    + bytes@.len() <= 0xe000),
                in_hram == (!old(self).lcd.dma_running && 0xff80 <= address && address
                    + bytes@.len() <= 0xffff),
                in_wram ==> self.ram@ == spec_store_bytes(
                    old(self).ram@,
                    address - 0xc000,
                    bytes@.take(i as int),
                ) && *self == (MemoryBus {
                    ram: self.ram,
                    last_bus_value: self.last_bus_value,
                    break_reason: self.break_reason,
                    ..*old(self)
                }),
                in_hram ==> self.high_ram@ == spec_store_bytes(
                    old(self).high_ram@,
                    address - 0xff80,
                    bytes@.take(i as int),
                ) && *self == (MemoryBus {
                    high_ram: self.high_ram,
                    last_bus_value: self.last_bus_value,
                    break_reason: self.break_reason,
                    ..*old(self)
                }),
            decreases bytes@.len() - i,
        {
            proof {
                assert(bytes@.take(i as int).len() == i);
                assert(bytes@.take(i + 1) =~= bytes@.take(i as int).push(bytes@[i as int]));
                if in_wram {
                    assert(old(self).ram@.len() == 8192);
                    lemma_store_bytes_len(old(self).ram@, address - 0xc000, bytes@.take(i as int));
                    lemma_store_bytes_snoc(
                        old(self).ram@,
                        address - 0xc000,
                        bytes@.take(i as int),
                        bytes@[i as int],
                    );
                }
                if in_hram {
                    assert(old(self).high_ram@.len() == 127);
                    lemma_store_bytes_len(
                        old(self).high_ram@,
                        address - 0xff80,
                        bytes@.take(i as int),
                    );
                    lemma_store_bytes_snoc(
                        old(self).high_ram@,
                        address - 0xff80,
                        bytes@.take(i as int),
                        bytes@[i as int],
                    );
                }
            }
            self.write_u8(((address as u32 + i as u32) % 0x10000) as u16, bytes[i]);
            i = i + 1;
        }
        proof {
            if in_wram || in_hram {
                assert(bytes@.take(bytes@.len() as int) =~= bytes@);
            }
        }
    }
}

/// `bytes` stored one after another into `mem` starting at `offset`,
/// as a run of single-byte writes leaves the memory.
pub open spec fn spec_store_bytes(mem: Seq<u8>, offset: int, bytes: Seq<u8>) -> Seq<u8>
    decreases bytes.len(),
{
    if bytes.len() == 0 {
        mem
    } else {
        spec_store_bytes(mem.update(offset, bytes[0]), offset + 1, bytes.drop_first())
    }
}

/// Storing a run keeps the memory's length.
pub proof fn lemma_store_bytes_len(mem: Seq<u8>, offset: int, bytes: Seq<u8>)
    requires
        0 <= offset,
        offset + bytes.len() <= mem.len(),
    ensures
        spec_store_bytes(mem, offset, bytes).len() == mem.len(),
    decreases bytes.len(),
{
    if bytes.len() > 0 {
        lemma_store_bytes_len(mem.update(offset, bytes[0]), offset + 1, bytes.drop_first());
    }
}

/// Extending a stored run by one byte is one more cell update.
pub proof fn lemma_store_bytes_snoc(mem: Seq<u8>, offset: int, bytes: Seq<u8>, x: u8)
    requires
        0 <= offset,
        offset + bytes.len() + 1 <= mem.len(),
    ensures
        spec_store_bytes(mem, offset, bytes.push(x)) == spec_store_bytes(
            mem,
            offset,
            bytes,
        ).update(offset + bytes.len(), x),
    decreases bytes.len(),
{
    if bytes.len() == 0 {
        assert(bytes.push(x).drop_first() =~= Seq::<u8>::empty());
        assert(spec_store_bytes(mem.update(offset, x), offset + 1, Seq::<u8>::empty())
            =~= mem.update(offset, x));
        assert(spec_store_bytes(mem, offset, bytes.push(x)) =~= mem.update(offset, x));
        assert(spec_store_bytes(mem, offset, bytes) =~= mem);
    } else {
        let stepped = mem.update(offset, bytes[0]);
        assert(bytes.push(x).drop_first() =~= bytes.drop_first().push(x));
        lemma_store_bytes_snoc(stepped, offset + 1, bytes.drop_first(), x);
    }
}

/// Storing a run of bytes keeps the memory's length and leaves every
/// cell outside the run unchanged.
pub proof fn lemma_store_bytes_frame(mem: Seq<u8>, offset: int, bytes: Seq<u8>, j: int)
    requires
        0 <= offset,
        offset + bytes.len() <= mem.len(),
        0 <= j < mem.len(),
        !(offset <= j < offset + bytes.len()),
    ensures
        spec_store_bytes(mem, offset, bytes).len() == mem.len(),
        spec_store_bytes(mem, offset, bytes)[j] == mem[j],
    decreases bytes.len(),
{
    if bytes.len() > 0 {
        lemma_store_bytes_frame(mem.update(offset, bytes[0]), offset + 1, bytes.drop_first(), j);
    }
}

/// Each stored byte is found again at its own cell.
pub proof fn lemma_store_bytes_reads_back(mem: Seq<u8>, offset: int, bytes: Seq<u8>, i: int)
    requires
        0 <= offset,
        offset + bytes.len() <= mem.len(),
        0 <= i < bytes.len(),
    ensures
        spec_store_bytes(mem, offset, bytes).len() == mem.len(),
        spec_store_bytes(mem, offset, bytes)[offset + i] == bytes[i],
    decreases bytes.len(),
{
    let stepped = mem.update(offset, bytes[0]);
    if i == 0 {
        lemma_store_bytes_frame(stepped, offset + 1, bytes.drop_first(), offset);
    } else {
        lemma_store_bytes_reads_back(stepped, offset + 1, bytes.drop_first(), i - 1);
    }
}

/// Law: any byte sequence written into work RAM reads back unchanged
/// through the address table. `pre` and `post` are the bus before and
/// after the run of writes: the writes change the work-RAM cells of
/// the run (and the bus latch and breakpoint scratch) and nothing
/// else, exactly as `write_u8` promises per byte.
pub proof fn lemma_wram_round_trip(
    pre: MemoryBus,
    post: MemoryBus,
    address: u16,
    bytes: Seq<u8>,
    i: int,
)
    requires
        pre.wf(),
        0xc000 <= address,
        address + bytes.len() <= 0xe000,
        post.ram@ == spec_store_bytes(pre.ram@, address - 0xc000, bytes),
        post == (MemoryBus {
            ram: post.ram,
            last_bus_value: post.last_bus_value,
            break_reason: post.break_reason,
            ..pre
        }),
        0 <= i < bytes.len(),
    ensures
        post.spec_bus_read((address + i) as u16) == bytes[i],
{
    lemma_store_bytes_reads_back(pre.ram@, address - 0xc000, bytes, i);
}

/// Law: any byte sequence written into high RAM reads back unchanged
/// through the address table.
pub proof fn lemma_hram_round_trip(
    pre: MemoryBus,
    post: MemoryBus,
    address: u16,
    bytes: Seq<u8>,
    i: int,
)
    requires
        pre.wf(),
        0xff80 <= address,
        address + bytes.len() <= 0xffff,
        post.high_ram@ == spec_store_bytes(pre.high_ram@, address - 0xff80, bytes),
        post == (MemoryBus {
            high_ram: post.high_ram,
            last_bus_value: post.last_bus_value,
            break_reason: post.break_reason,
            ..pre
        }),
        0 <= i < bytes.len(),
    ensures
        post.spec_bus_read((address + i) as u16) == bytes[i],
{
    lemma_store_bytes_reads_back(pre.high_ram@, address - 0xff80, bytes, i);
}


} // verus!
