use vstd::prelude::*;
use crate::instruction::{
    spec_decode, spec_size, ConditionType, DerefOperand, Instruction, Opcode, Operand, Register,
};
use crate::memory_bus::MemoryBus;
use crate::register::RegisterStorage;

verus! {

pub const INTERRUPT_ENABLE_REGISTER_ADDRESS: u16 = 0xffff;
pub const INTERRUPT_FLAGS_REGISTER_ADDRESS: u16 = 0xff0f;

/// Which interrupt sources the peripherals raised during a step.
#[derive(Debug, Default)]
pub struct InterruptRequest {
    pub vblank: bool,
    pub stat: bool,
    pub timer: bool,
    pub serial: bool,
    pub joypad: bool,
}

/// The CPU's execution mode.
#[derive(Clone, Copy, Debug)]
pub enum CpuState {
    Running,
    Halted,
    Stopped,
}

/// The LR35902 CPU: the register file, the stack and program
/// counters, the execution mode and the master interrupt enable.
#[derive(Debug)]
pub struct Cpu {
    pub af: RegisterStorage,
    pub bc: RegisterStorage,
    pub de: RegisterStorage,
    pub hl: RegisterStorage,
    pub pc: u16,
    pub sp: u16,
    pub state: CpuState,
    pub interrupt_master_enable: bool,
}

impl Cpu {
    /// The flag register's hardware invariant: its low nibble is
    /// always zero.
    pub open spec fn wf(self) -> bool {
        self.af.low % 16 == 0
    }

    pub open spec fn spec_zero_flag(self) -> bool {
        (self.af.low / 128) % 2 == 1
    }

    pub open spec fn spec_subtraction_flag(self) -> bool {
        (self.af.low / 64) % 2 == 1
    }

    pub open spec fn spec_half_carry_flag(self) -> bool {
        (self.af.low / 32) % 2 == 1
    }

    pub open spec fn spec_carry_flag(self) -> bool {
        (self.af.low / 16) % 2 == 1
    }

    /// The flag byte a given Z/N/H/C combination packs to.
    pub open spec fn spec_flag_byte(z: bool, n: bool, h: bool, c: bool) -> u8 {
        ((if z {
            128int
        } else {
            0int
        }) + (if n {
            64int
        } else {
            0int
        }) + (if h {
            32int
        } else {
            0int
        }) + (if c {
            16int
        } else {
            0int
        })) as u8
    }

    /// Everything but the flag byte is unchanged.
    pub open spec fn spec_same_but_flags(pre: Cpu, post: Cpu) -> bool {
        post == (Cpu { af: RegisterStorage { low: post.af.low, ..pre.af }, ..pre })
    }

    /// Everything but the accumulator and the flag byte is unchanged.
    pub open spec fn spec_same_but_a_and_flags(pre: Cpu, post: Cpu) -> bool {
        post == (Cpu {
            af: RegisterStorage { low: post.af.low, high: post.af.high },
            ..pre
        })
    }

    /// The four flags of `post`, spelled out.
    pub open spec fn spec_flags_set(post: Cpu, z: bool, n: bool, h: bool, c: bool) -> bool {
        &&& post.spec_zero_flag() == z
        &&& post.spec_subtraction_flag() == n
        &&& post.spec_half_carry_flag() == h
        &&& post.spec_carry_flag() == c
    }

    /// What a condition code tests.
    pub open spec fn spec_condition(c: Cpu, condition: ConditionType) -> bool {
        match condition {
            ConditionType::NonZero => !c.spec_zero_flag(),
            ConditionType::Zero => c.spec_zero_flag(),
            ConditionType::NotCarry => !c.spec_carry_flag(),
            ConditionType::Carry => c.spec_carry_flag(),
        }
    }

    /// Only PC moved.
    pub open spec fn spec_only_pc(pre: Cpu, post: Cpu) -> bool {
        post == (Cpu { pc: post.pc, ..pre })
    }

    /// Only PC and the flag byte moved.
    pub open spec fn spec_only_pc_flags(pre: Cpu, post: Cpu) -> bool {
        post == (Cpu { pc: post.pc, af: RegisterStorage { low: post.af.low, ..pre.af }, ..pre })
    }

    /// Only PC, A and the flag byte moved.
    pub open spec fn spec_only_pc_a_flags(pre: Cpu, post: Cpu) -> bool {
        post == (Cpu { pc: post.pc, af: post.af, ..pre })
    }

    /// An 8-bit register write: the named register holds `v` and,
    /// beyond PC, nothing else moved.
    pub open spec fn spec_r8_written(pre: Cpu, post: Cpu, reg: Register, v: u8) -> bool {
        &&& post.spec_r8(reg) == v
        &&& post.af.low == pre.af.low
        &&& post.sp == pre.sp
        &&& post.state == pre.state
        &&& post.interrupt_master_enable == pre.interrupt_master_enable
        &&& forall|r2: Register|
            Cpu::spec_is_r8(r2) && r2 != reg ==> post.spec_r8(r2) == pre.spec_r8(r2)
    }

    /// The byte an 8-bit arithmetic operand denotes, where the
    /// pre-state pins it down: an immediate, an 8-bit register, or
    /// the byte behind HL while no OAM-DMA runs.
    pub open spec fn spec_operand_byte(cpu: Cpu, bus: MemoryBus, operand: Operand) -> Option<u8> {
        match operand {
            Operand::U8(v) => Option::Some(v),
            Operand::Register(reg) => if Cpu::spec_is_r8(reg) {
                Option::Some(cpu.spec_r8(reg))
            } else {
                Option::None
            },
            Operand::Deref(DerefOperand::Register(Register::Hl)) => if !bus.lcd.dma_running {
                Option::Some(bus.spec_bus_read(cpu.hl.spec_u16()))
            } else {
                Option::None
            },
            _ => Option::None,
        }
    }

    /// The cycle count of an 8-bit arithmetic operand form.
    pub open spec fn spec_operand_cycles(operand: Operand) -> u64 {
        match operand {
            Operand::Register(..) => 4,
            _ => 8,
        }
    }

    /// What the 8-bit add/subtract unit leaves in A and the flags.
    pub open spec fn spec_add8_result(
        pre: Cpu,
        post: Cpu,
        b: u8,
        use_carry: bool,
        subtraction: bool,
    ) -> bool {
        let a = pre.af.high as int;
        let c_in: int = if use_carry && pre.spec_carry_flag() {
            1
        } else {
            0
        };
        let result: int = if subtraction {
            (a - b - c_in) % 256
        } else {
            (a + b + c_in) % 256
        };
        &&& post.af.high == result
        &&& Cpu::spec_flags_set(
            post,
            result == 0,
            subtraction,
            if subtraction {
                a % 16 < b % 16 + c_in
            } else {
                a % 16 + b % 16 + c_in > 15
            },
            if subtraction {
                a < b + c_in
            } else {
                a + b + c_in > 255
            },
        )
    }

    /// What DAA leaves in A and the flags: the 0x60 and 0x06
    /// corrections of a BCD add (C can be set, never cleared) or the
    /// reverse corrections of a BCD subtract (C kept); Z follows the
    /// result, N is kept, H clears.
    pub open spec fn spec_daa_result(pre: Cpu, post: Cpu) -> bool {
        &&& post.spec_subtraction_flag() == pre.spec_subtraction_flag()
        &&& post.spec_half_carry_flag() == false
        &&& (!pre.spec_subtraction_flag() ==> ({
            let a = pre.af.high as int;
            let carry_out = pre.spec_carry_flag() || a > 0x99;
            let step1: int = if carry_out {
                (a + 0x60) % 256
            } else {
                a
            };
            let adjusted: int = if pre.spec_half_carry_flag() || step1 % 16 > 9 {
                (step1 + 6) % 256
            } else {
                step1
            };
            &&& post.af.high == adjusted
            &&& post.spec_carry_flag() == carry_out
            &&& post.spec_zero_flag() == (adjusted == 0)
        }))
        &&& (pre.spec_subtraction_flag() ==> ({
            let a = pre.af.high as int;
            let adjusted: int = (a - (if pre.spec_carry_flag() {
                0x60int
            } else {
                0int
            }) - (if pre.spec_half_carry_flag() {
                6int
            } else {
                0int
            })) % 256;
            &&& post.af.high == adjusted
            &&& post.spec_carry_flag() == pre.spec_carry_flag()
            &&& post.spec_zero_flag() == (adjusted == 0)
        }))
    }

    /// The register file at power-on: AF = 0x01b0, PC at the
    /// cartridge entry point, SP at the top of high RAM.
    pub open spec fn spec_boot() -> Cpu {
        Cpu {
            af: RegisterStorage { high: 0x01, low: 0xb0 },
            bc: RegisterStorage { high: 0, low: 0 },
            de: RegisterStorage { high: 0, low: 0 },
            hl: RegisterStorage { high: 0, low: 0 },
            pc: 0x100,
            sp: 0xfffe,
            state: CpuState::Running,
            interrupt_master_enable: false,
        }
    }

    pub fn new() -> (r: Cpu)
        ensures
            r == Cpu::spec_boot(),
            r.wf(),
            r.af.spec_u16() == 0x01b0,
            r.bc.spec_u16() == 0,
            r.de.spec_u16() == 0,
            r.hl.spec_u16() == 0,
            r.pc == 0x100,
            r.sp == 0xfffe,
            r.state matches CpuState::Running,
            r.interrupt_master_enable == false,
    {
        Cpu {
            af: RegisterStorage::new(0x01b0),
            bc: RegisterStorage::new(0),
            de: RegisterStorage::new(0),
            hl: RegisterStorage::new(0),
            pc: 0x100,
            sp: 0xfffe,
            state: CpuState::Running,
            interrupt_master_enable: false,
        }
    }

    #[must_use]
    pub fn get_program_counter(&self) -> (r: u16)
        ensures
            r == self.pc,
    {
        self.pc
    }

    pub fn get_flags(&self) -> (r: u8)
        ensures
            r == self.af.low,
    {
        self.af.get_low()
    }

    /// Stores a flag byte; the hardware keeps the low nibble zero, so
    /// it is masked away.
    pub fn set_flags(&mut self, flags: u8)
        ensures
            final(self).af.low == (flags / 16) * 16,
            Cpu::spec_same_but_flags(*old(self), *final(self)),
            final(self).wf(),
    {
        self.af.set_low((flags / 16) * 16);
    }

    pub fn clear_flags(&mut self)
        ensures
            final(self).af.low == 0,
            Cpu::spec_same_but_flags(*old(self), *final(self)),
            final(self).wf(),
    {
        self.af.set_low(0);
    }

    pub fn set_flags_from_bools(&mut self, zero: bool, subtraction: bool, half_carry: bool,
        carry: bool)
        ensures
            final(self).af.low == Cpu::spec_flag_byte(zero, subtraction, half_carry, carry),
            final(self).spec_zero_flag() == zero,
            final(self).spec_subtraction_flag() == subtraction,
            final(self).spec_half_carry_flag() == half_carry,
            final(self).spec_carry_flag() == carry,
            Cpu::spec_same_but_flags(*old(self), *final(self)),
            final(self).wf(),
    {
        let mut v: u8 = 0;
        if zero {
            v = v + 128;
        }
        if subtraction {
            v = v + 64;
        }
        if half_carry {
            v = v + 32;
        }
        if carry {
            v = v + 16;
        }
        self.af.set_low(v);
    }

    pub fn get_zero_flag(&self) -> (r: bool)
        ensures
            r == self.spec_zero_flag(),
    {
        (self.af.get_low() / 128) % 2 == 1
    }

    pub fn get_subtraction_flag(&self) -> (r: bool)
        ensures
            r == self.spec_subtraction_flag(),
    {
        (self.af.get_low() / 64) % 2 == 1
    }

    pub fn get_half_carry_flag(&self) -> (r: bool)
        ensures
            r == self.spec_half_carry_flag(),
    {
        (self.af.get_low() / 32) % 2 == 1
    }

    pub fn get_carry_flag(&self) -> (r: bool)
        ensures
            r == self.spec_carry_flag(),
    {
        (self.af.get_low() / 16) % 2 == 1
    }

    pub fn set_zero_flag_from_bool(&mut self, zero: bool)
        requires
            old(self).wf(),
        ensures
            final(self).spec_zero_flag() == zero,
            final(self).spec_subtraction_flag() == old(self).spec_subtraction_flag(),
            final(self).spec_half_carry_flag() == old(self).spec_half_carry_flag(),
            final(self).spec_carry_flag() == old(self).spec_carry_flag(),
            Cpu::spec_same_but_flags(*old(self), *final(self)),
            final(self).wf(),
    {
        let n = self.get_subtraction_flag();
        let h = self.get_half_carry_flag();
        let c = self.get_carry_flag();
        self.set_flags_from_bools(zero, n, h, c);
    }

    pub fn set_subtraction_flag_from_bool(&mut self, subtraction: bool)
        requires
            old(self).wf(),
        ensures
            final(self).spec_subtraction_flag() == subtraction,
            final(self).spec_zero_flag() == old(self).spec_zero_flag(),
            final(self).spec_half_carry_flag() == old(self).spec_half_carry_flag(),
            final(self).spec_carry_flag() == old(self).spec_carry_flag(),
            Cpu::spec_same_but_flags(*old(self), *final(self)),
            final(self).wf(),
    {
        let z = self.get_zero_flag();
        let h = self.get_half_carry_flag();
        let c = self.get_carry_flag();
        self.set_flags_from_bools(z, subtraction, h, c);
    }

    pub fn set_half_carry_flag_from_bool(&mut self, half_carry: bool)
        requires
            old(self).wf(),
        ensures
            final(self).spec_half_carry_flag() == half_carry,
            final(self).spec_zero_flag() == old(self).spec_zero_flag(),
            final(self).spec_subtraction_flag() == old(self).spec_subtraction_flag(),
            final(self).spec_carry_flag() == old(self).spec_carry_flag(),
            Cpu::spec_same_but_flags(*old(self), *final(self)),
            final(self).wf(),
    {
        let z = self.get_zero_flag();
        let n = self.get_subtraction_flag();
        let c = self.get_carry_flag();
        self.set_flags_from_bools(z, n, half_carry, c);
    }

    pub fn set_carry_flag_from_bool(&mut self, carry: bool)
        requires
            old(self).wf(),
        ensures
            final(self).spec_carry_flag() == carry,
            final(self).spec_zero_flag() == old(self).spec_zero_flag(),
            final(self).spec_subtraction_flag() == old(self).spec_subtraction_flag(),
            final(self).spec_half_carry_flag() == old(self).spec_half_carry_flag(),
            Cpu::spec_same_but_flags(*old(self), *final(self)),
            final(self).wf(),
    {
        let z = self.get_zero_flag();
        let n = self.get_subtraction_flag();
        let h = self.get_half_carry_flag();
        self.set_flags_from_bools(z, n, h, carry);
    }

    pub fn set_zero_flag(&mut self)
        requires
            old(self).wf(),
        ensures
            final(self).spec_zero_flag() == true,
            final(self).spec_subtraction_flag() == old(self).spec_subtraction_flag(),
            final(self).spec_half_carry_flag() == old(self).spec_half_carry_flag(),
            final(self).spec_carry_flag() == old(self).spec_carry_flag(),
            Cpu::spec_same_but_flags(*old(self), *final(self)),
            final(self).wf(),
    {
        self.set_zero_flag_from_bool(true);
    }

    pub fn clear_zero_flag(&mut self)
        requires
            old(self).wf(),
        ensures
            final(self).spec_zero_flag() == false,
            final(self).spec_subtraction_flag() == old(self).spec_subtraction_flag(),
            final(self).spec_half_carry_flag() == old(self).spec_half_carry_flag(),
            final(self).spec_carry_flag() == old(self).spec_carry_flag(),
            Cpu::spec_same_but_flags(*old(self), *final(self)),
            final(self).wf(),
    {
        self.set_zero_flag_from_bool(false);
    }

    pub fn set_subtraction_flag(&mut self)
        requires
            old(self).wf(),
        ensures
            final(self).spec_subtraction_flag() == true,
            final(self).spec_zero_flag() == old(self).spec_zero_flag(),
            final(self).spec_half_carry_flag() == old(self).spec_half_carry_flag(),
            final(self).spec_carry_flag() == old(self).spec_carry_flag(),
            Cpu::spec_same_but_flags(*old(self), *final(self)),
            final(self).wf(),
    {
        self.set_subtraction_flag_from_bool(true);
    }

    pub fn clear_subtraction_flag(&mut self)
        requires
            old(self).wf(),
        ensures
            final(self).spec_subtraction_flag() == false,
            final(self).spec_zero_flag() == old(self).spec_zero_flag(),
            final(self).spec_half_carry_flag() == old(self).spec_half_carry_flag(),
            final(self).spec_carry_flag() == old(self).spec_carry_flag(),
            Cpu::spec_same_but_flags(*old(self), *final(self)),
            final(self).wf(),
    {
        self.set_subtraction_flag_from_bool(false);
    }

    pub fn set_half_carry_flag(&mut self)
        requires
            old(self).wf(),
        ensures
            final(self).spec_half_carry_flag() == true,
            final(self).spec_zero_flag() == old(self).spec_zero_flag(),
            final(self).spec_subtraction_flag() == old(self).spec_subtraction_flag(),
            final(self).spec_carry_flag() == old(self).spec_carry_flag(),
            Cpu::spec_same_but_flags(*old(self), *final(self)),
            final(self).wf(),
    {
        self.set_half_carry_flag_from_bool(true);
    }

    pub fn clear_half_carry_flag(&mut self)
        requires
            old(self).wf(),
        ensures
            final(self).spec_half_carry_flag() == false,
            final(self).spec_zero_flag() == old(self).spec_zero_flag(),
            final(self).spec_subtraction_flag() == old(self).spec_subtraction_flag(),
            final(self).spec_carry_flag() == old(self).spec_carry_flag(),
            Cpu::spec_same_but_flags(*old(self), *final(self)),
            final(self).wf(),
    {
        self.set_half_carry_flag_from_bool(false);
    }

    pub fn set_carry_flag(&mut self)
        requires
            old(self).wf(),
        ensures
            final(self).spec_carry_flag() == true,
            final(self).spec_zero_flag() == old(self).spec_zero_flag(),
            final(self).spec_subtraction_flag() == old(self).spec_subtraction_flag(),
            final(self).spec_half_carry_flag() == old(self).spec_half_carry_flag(),
            Cpu::spec_same_but_flags(*old(self), *final(self)),
            final(self).wf(),
    {
        self.set_carry_flag_from_bool(true);
    }

    pub fn clear_carry_flag(&mut self)
        requires
            old(self).wf(),
        ensures
            final(self).spec_carry_flag() == false,
            final(self).spec_zero_flag() == old(self).spec_zero_flag(),
            final(self).spec_subtraction_flag() == old(self).spec_subtraction_flag(),
            final(self).spec_half_carry_flag() == old(self).spec_half_carry_flag(),
            Cpu::spec_same_but_flags(*old(self), *final(self)),
            final(self).wf(),
    {
        self.set_carry_flag_from_bool(false);
    }

    /// Whether `v` has bit `bit` set.
    pub open spec fn spec_bit_mask(bit: u8) -> u8 {
        if bit == 0 {
            1
        } else if bit == 1 {
            2
        } else if bit == 2 {
            4
        } else if bit == 3 {
            8
        } else if bit == 4 {
            16
        } else if bit == 5 {
            32
        } else if bit == 6 {
            64
        } else {
            128
        }
    }

    fn bit_mask(bit: u8) -> (r: u8)
        requires
            bit < 8,
        ensures
            r == Cpu::spec_bit_mask(bit),
    {
        if bit == 0 {
            1
        } else if bit == 1 {
            2
        } else if bit == 2 {
            4
        } else if bit == 3 {
            8
        } else if bit == 4 {
            16
        } else if bit == 5 {
            32
        } else if bit == 6 {
            64
        } else {
            128
        }
    }

    pub fn test_bit(bit: u8, v: u8) -> (r: bool)
        requires
            bit < 8,
        ensures
            r == ((v / Cpu::spec_bit_mask(bit)) % 2 == 1),
    {
        let mask = Cpu::bit_mask(bit);
        (v / mask) % 2 == 1
    }

    /// Returns `v` with bit `bit` set.
    pub fn set_bit(bit: u8, v: u8) -> (r: u8)
        requires
            bit < 8,
        ensures
            r == (if (v / Cpu::spec_bit_mask(bit)) % 2 == 1 {
                v
            } else {
                (v + Cpu::spec_bit_mask(bit)) as u8
            }),
    {
        let mask = Cpu::bit_mask(bit);
        if (v / mask) % 2 == 1 {
            v
        } else {
            v + mask
        }
    }

    /// Returns `v` with bit `bit` cleared.
    pub fn reset_bit(bit: u8, v: u8) -> (r: u8)
        requires
            bit < 8,
        ensures
            r == (if (v / Cpu::spec_bit_mask(bit)) % 2 == 1 {
                (v - Cpu::spec_bit_mask(bit)) as u8
            } else {
                v
            }),
    {
        let mask = Cpu::bit_mask(bit);
        if (v / mask) % 2 == 1 {
            v - mask
        } else {
            v
        }
    }

    pub fn get_a(&self) -> (r: u8)
        ensures
            r == self.af.high,
    {
        self.af.get_high()
    }

    pub fn set_a(&mut self, v: u8)
        ensures
            *final(self) == (Cpu {
                af: RegisterStorage { high: v, ..old(self).af },
                ..*old(self)
            }),
            old(self).wf() ==> final(self).wf(),
    {
        self.af.set_high(v);
    }

    /// Whether a register name denotes one of the seven 8-bit
    /// registers.
    pub open spec fn spec_is_r8(register: Register) -> bool {
        match register {
            Register::A
            | Register::B
            | Register::C
            | Register::D
            | Register::E
            | Register::H
            | Register::L => true,
            _ => false,
        }
    }

    /// The value of an 8-bit register.
    pub open spec fn spec_r8(self, register: Register) -> u8 {
        match register {
            Register::A => self.af.high,
            Register::B => self.bc.high,
            Register::C => self.bc.low,
            Register::D => self.de.high,
            Register::E => self.de.low,
            Register::H => self.hl.high,
            _ => self.hl.low,
        }
    }

    pub fn get_r8(&self, register: &Register) -> (r: u8)
        requires
            Cpu::spec_is_r8(*register),
        ensures
            r == self.spec_r8(*register),
    {
        match *register {
            Register::A => self.af.get_high(),
            Register::B => self.bc.get_high(),
            Register::C => self.bc.get_low(),
            Register::D => self.de.get_high(),
            Register::E => self.de.get_low(),
            Register::H => self.hl.get_high(),
            _ => self.hl.get_low(),
        }
    }

    pub fn set_r8(&mut self, register: &Register, v: u8)
        requires
            Cpu::spec_is_r8(*register),
        ensures
            final(self).spec_r8(*register) == v,
            final(self).pc == old(self).pc,
            final(self).sp == old(self).sp,
            final(self).state == old(self).state,
            final(self).interrupt_master_enable == old(self).interrupt_master_enable,
            final(self).af.low == old(self).af.low,
            forall|r2: Register|
                Cpu::spec_is_r8(r2) && r2 != *register ==> final(self).spec_r8(r2) == old(self).spec_r8(r2),
            old(self).wf() ==> final(self).wf(),
    {
        match *register {
            Register::A => self.af.set_high(v),
            Register::B => self.bc.set_high(v),
            Register::C => self.bc.set_low(v),
            Register::D => self.de.set_high(v),
            Register::E => self.de.set_low(v),
            Register::H => self.hl.set_high(v),
            _ => self.hl.set_low(v),
        }
    }

    /// Whether a register name denotes one of the 16-bit registers a
    /// plain word instruction addresses.
    pub open spec fn spec_is_r16(register: Register) -> bool {
        match register {
            Register::Bc | Register::De | Register::Hl | Register::Sp => true,
            _ => false,
        }
    }

    pub open spec fn spec_r16(self, register: Register) -> u16 {
        match register {
            Register::Bc => self.bc.spec_u16(),
            Register::De => self.de.spec_u16(),
            Register::Hl => self.hl.spec_u16(),
            _ => self.sp,
        }
    }

    pub fn get_r16(&self, register: &Register) -> (r: u16)
        requires
            Cpu::spec_is_r16(*register),
        ensures
            r == self.spec_r16(*register),
    {
        match *register {
            Register::Bc => self.bc.get_u16(),
            Register::De => self.de.get_u16(),
            Register::Hl => self.hl.get_u16(),
            _ => self.sp,
        }
    }

    pub fn set_r16(&mut self, register: &Register, v: u16)
        requires
            Cpu::spec_is_r16(*register),
        ensures
            final(self).spec_r16(*register) == v,
            final(self).pc == old(self).pc,
            final(self).af == old(self).af,
            final(self).state == old(self).state,
            final(self).interrupt_master_enable == old(self).interrupt_master_enable,
            forall|r2: Register|
                Cpu::spec_is_r16(r2) && r2 != *register ==> final(self).spec_r16(r2) == old(self).spec_r16(r2),
            old(self).wf() ==> final(self).wf(),
    {
        match *register {
            Register::Bc => self.bc.set_u16(v),
            Register::De => self.de.set_u16(v),
            Register::Hl => self.hl.set_u16(v),
            _ => {
                self.sp = v;
            },
        }
    }

    pub fn check_condition(&self, condition: ConditionType) -> (r: bool)
        ensures
            condition matches ConditionType::NonZero ==> r == !self.spec_zero_flag(),
            condition matches ConditionType::Zero ==> r == self.spec_zero_flag(),
            condition matches ConditionType::NotCarry ==> r == !self.spec_carry_flag(),
            condition matches ConditionType::Carry ==> r == self.spec_carry_flag(),
    {
        match condition {
            ConditionType::NonZero => !self.get_zero_flag(),
            ConditionType::Zero => self.get_zero_flag(),
            ConditionType::NotCarry => !self.get_carry_flag(),
            ConditionType::Carry => self.get_carry_flag(),
        }
    }

    /// Pushes a word: SP moves down by two (wrapping modulo 2^16) and
    /// the word's bytes land at the new SP, low byte first.
    pub fn push(&mut self, memory_bus: &mut MemoryBus, v: u16)
        requires
            old(self).wf(),
            old(memory_bus).wf(),
        ensures
            final(self).wf(),
            final(memory_bus).wf(),
            final(self).sp == (old(self).sp as int - 2) % 0x10000,
            *final(self) == (Cpu { sp: final(self).sp, ..*old(self) }),
            !old(memory_bus).lcd.dma_running ==> MemoryBus::spec_word_write_effect(
                *old(memory_bus),
                *final(memory_bus),
                final(self).sp,
                v,
            ),
    {
        let new_sp: u16 = (((self.sp as u32) + 0x10000 - 2) % 0x10000) as u16;
        self.sp = new_sp;
        memory_bus.write_u8(new_sp, (v % 256) as u8);
        memory_bus.write_u8(((new_sp as u32 + 1) % 0x10000) as u16, (v / 256) as u8);
    }

    /// Pops a word: the bytes at SP (low first) are combined and SP
    /// moves up by two, wrapping modulo 2^16.
    pub fn pop(&mut self, memory_bus: &mut MemoryBus) -> (r: u16)
        requires
            old(self).wf(),
            old(memory_bus).wf(),
        ensures
            final(self).wf(),
            final(memory_bus).wf(),
            final(self).sp == (old(self).sp + 2) % 0x10000,
            *final(self) == (Cpu { sp: final(self).sp, ..*old(self) }),
            !old(memory_bus).lcd.dma_running ==> r == old(memory_bus).spec_bus_read(old(self).sp)
                + 256 * old(memory_bus).spec_bus_read(
                crate::memory_bus::spec_wrap_addr(old(self).sp, 1),
            ),
            MemoryBus::spec_read_frame(*old(memory_bus), *final(memory_bus)),
    {
        let v = memory_bus.read_u16(self.sp);
        self.sp = (((self.sp as u32) + 2) % 0x10000) as u16;
        v
    }

    /// Pushes the return address and jumps.
    pub fn call(&mut self, memory_bus: &mut MemoryBus, address: u16)
        requires
            old(self).wf(),
            old(memory_bus).wf(),
        ensures
            final(self).wf(),
            final(memory_bus).wf(),
            final(self).pc == address,
            final(self).sp == (old(self).sp as int - 2) % 0x10000,
            *final(self) == (Cpu { pc: address, sp: final(self).sp, ..*old(self) }),
            !old(memory_bus).lcd.dma_running ==> MemoryBus::spec_word_write_effect(
                *old(memory_bus),
                *final(memory_bus),
                final(self).sp,
                old(self).pc,
            ),
    {
        let return_address = self.pc;
        self.push(memory_bus, return_address);
        self.pc = address;
    }

    /// Pops the return address into PC.
    pub fn ret(&mut self, memory_bus: &mut MemoryBus)
        requires
            old(self).wf(),
            old(memory_bus).wf(),
        ensures
            final(self).wf(),
            final(memory_bus).wf(),
            final(self).sp == (old(self).sp + 2) % 0x10000,
            !old(memory_bus).lcd.dma_running ==> final(self).pc == old(memory_bus).spec_bus_read(
                old(self).sp,
            ) + 256 * old(memory_bus).spec_bus_read(
                crate::memory_bus::spec_wrap_addr(old(self).sp, 1),
            ),
            *final(self) == (Cpu { pc: final(self).pc, sp: final(self).sp, ..*old(self) }),
            MemoryBus::spec_read_frame(*old(memory_bus), *final(memory_bus)),
    {
        let v = self.pop(memory_bus);
        self.pc = v;
    }

    /// The 8-bit add/subtract unit. Adds `b` (and the carry flag when
    /// `use_carry`) to A, or subtracts them when `subtraction`, and
    /// sets all four flags exactly as the hardware does: Z from the
    /// 8-bit result, N from the direction, H from the low-nibble
    /// carry or borrow, C from the full-width carry or borrow.
    #[verifier::rlimit(100)]
    #[verifier::spinoff_prover]
    pub fn add8_with_carry(&mut self, b: u8, use_carry: bool, subtraction: bool)
        requires
            old(self).wf(),
        ensures
            final(self).wf(),
            Cpu::spec_same_but_a_and_flags(*old(self), *final(self)),
            Cpu::spec_add8_result(*old(self), *final(self), b, use_carry, subtraction),
    {
        let a = self.af.get_high();
        let c_in: u16 = if use_carry && self.get_carry_flag() {
            1
        } else {
            0
        };
        let result: u8;
        let half_carry: bool;
        let carry: bool;
        if subtraction {
            result = ((a as u32 + 0x200 - b as u32 - c_in as u32) % 256) as u8;
            half_carry = ((a % 16) as u16) < (b % 16) as u16 + c_in;
            carry = (a as u16) < (b as u16 + c_in);
        } else {
            let wide = a as u16 + b as u16 + c_in;
            result = (wide % 256) as u8;
            half_carry = (a % 16) as u16 + (b % 16) as u16 + c_in > 15;
            carry = wide > 255;
        }
        let zero = result == 0;
        self.af.set_high(result);
        self.set_flags_from_bools(zero, subtraction, half_carry, carry);
        proof {
            assert((old(self).af.high as int + 0x200 - b - c_in) % 256 == (old(self).af.high as int - b - c_in) % 256);
        }
    }

    /// Fetches the value an 8-bit arithmetic operand denotes, with
    /// the instruction's cycle count. `None` for operand forms no
    /// arithmetic instruction carries.
    fn extract_u8_arithmetic_operand(&self, memory_bus: &mut MemoryBus, operand: &Operand) -> (r:
        Option<(u8, u64)>)
        requires
            old(memory_bus).wf(),
        ensures
            final(memory_bus).wf(),
            r matches Option::Some(p) ==> p.1 == 4 || p.1 == 8,
            MemoryBus::spec_read_frame(*old(memory_bus), *final(memory_bus)),
            (*operand) matches Operand::U8(v) ==> r == Option::Some((v, 8u64)),
            (*operand) matches Operand::Register(reg) ==> (Cpu::spec_is_r8(reg) ==> r
                == Option::Some((self.spec_r8(reg), 4u64))),
            final(memory_bus).ram@ == old(memory_bus).ram@,
            final(memory_bus).high_ram@ == old(memory_bus).high_ram@,
            final(memory_bus).cartridge == old(memory_bus).cartridge,
            final(memory_bus).ppu == old(memory_bus).ppu,
            final(memory_bus).lcd == old(memory_bus).lcd,
            ((*operand) matches Operand::Deref(DerefOperand::Register(Register::Hl)) && !old(memory_bus).lcd.dma_running) ==> r == Option::Some(
                (old(memory_bus).spec_bus_read(self.hl.spec_u16()), 8u64),
            ),
    {
        match operand {
            Operand::U8(v) => Option::Some((*v, 8)),
            Operand::Register(r) => {
                if matches!(
                    r,
                    Register::A
                        | Register::B
                        | Register::C
                        | Register::D
                        | Register::E
                        | Register::H
                        | Register::L
                ) {
                    Option::Some((self.get_r8(r), 4))
                } else {
                    Option::None
                }
            },
            Operand::Deref(DerefOperand::Register(Register::Hl)) => {
                Option::Some((memory_bus.read_u8(self.hl.get_u16()), 8))
            },
            _ => Option::None,
        }
    }

    /// AND into A: Z from the result, N=0, H=1, C=0.
    pub fn and_a(&mut self, v: u8)
        requires
            old(self).wf(),
        ensures
            final(self).wf(),
            Cpu::spec_same_but_a_and_flags(*old(self), *final(self)),
            final(self).af.high == (old(self).af.high & v),
            final(self).spec_zero_flag() == ((old(self).af.high & v) == 0),
            final(self).spec_subtraction_flag() == false,
            final(self).spec_half_carry_flag() == true,
            final(self).spec_carry_flag() == false,
    {
        let result = self.af.get_high() & v;
        self.af.set_high(result);
        self.set_flags_from_bools(result == 0, false, true, false);
    }

    /// XOR into A: Z from the result, N=0, H=0, C=0.
    pub fn xor_a(&mut self, v: u8)
        requires
            old(self).wf(),
        ensures
            final(self).wf(),
            Cpu::spec_same_but_a_and_flags(*old(self), *final(self)),
            final(self).af.high == (old(self).af.high ^ v),
            final(self).spec_zero_flag() == ((old(self).af.high ^ v) == 0),
            final(self).spec_subtraction_flag() == false,
            final(self).spec_half_carry_flag() == false,
            final(self).spec_carry_flag() == false,
    {
        let result = self.af.get_high() ^ v;
        self.af.set_high(result);
        self.set_flags_from_bools(result == 0, false, false, false);
    }

    /// OR into A: Z from the result, N=0, H=0, C=0.
    pub fn or_a(&mut self, v: u8)
        requires
            old(self).wf(),
        ensures
            final(self).wf(),
            Cpu::spec_same_but_a_and_flags(*old(self), *final(self)),
            final(self).af.high == (old(self).af.high | v),
            final(self).spec_zero_flag() == ((old(self).af.high | v) == 0),
            final(self).spec_subtraction_flag() == false,
            final(self).spec_half_carry_flag() == false,
            final(self).spec_carry_flag() == false,
    {
        let result = self.af.get_high() | v;
        self.af.set_high(result);
        self.set_flags_from_bools(result == 0, false, false, false);
    }

    /// CP: the flags of `A - v` with A kept.
    pub fn cp_a(&mut self, v: u8)
        requires
            old(self).wf(),
        ensures
            final(self).wf(),
            Cpu::spec_same_but_flags(*old(self), *final(self)),
            final(self).spec_zero_flag() == (old(self).af.high == v),
            final(self).spec_subtraction_flag() == true,
            final(self).spec_half_carry_flag() == (old(self).af.high % 16 < v % 16),
            final(self).spec_carry_flag() == (old(self).af.high < v),
    {
        let a = self.af.get_high();
        self.set_flags_from_bools(a == v, true, a % 16 < v % 16, a < v);
    }

    /// INC on a byte: the incremented value; Z and H from it, N=0,
    /// C untouched.
    pub fn inc_value(&mut self, v: u8) -> (r: u8)
        requires
            old(self).wf(),
        ensures
            final(self).wf(),
            Cpu::spec_same_but_flags(*old(self), *final(self)),
            r == (v + 1) % 256,
            final(self).spec_zero_flag() == (r == 0),
            final(self).spec_subtraction_flag() == false,
            final(self).spec_half_carry_flag() == (v % 16 == 15),
            final(self).spec_carry_flag() == old(self).spec_carry_flag(),
    {
        let result = ((v as u16 + 1) % 256) as u8;
        let c = self.get_carry_flag();
        self.set_flags_from_bools(result == 0, false, v % 16 == 15, c);
        result
    }

    /// DEC on a byte: the decremented value; Z and H from it, N=1,
    /// C untouched.
    pub fn dec_value(&mut self, v: u8) -> (r: u8)
        requires
            old(self).wf(),
        ensures
            final(self).wf(),
            Cpu::spec_same_but_flags(*old(self), *final(self)),
            r == (v as int - 1) % 256,
            final(self).spec_zero_flag() == (r == 0),
            final(self).spec_subtraction_flag() == true,
            final(self).spec_half_carry_flag() == (v % 16 == 0),
            final(self).spec_carry_flag() == old(self).spec_carry_flag(),
    {
        let result = ((v as u16 + 255) % 256) as u8;
        let c = self.get_carry_flag();
        self.set_flags_from_bools(result == 0, true, v % 16 == 0, c);
        result
    }

    /// Rotate left: bit 7 moves into both C and bit 0. Z from the
    /// result, N=0, H=0.
    pub fn rlc_value(&mut self, v: u8) -> (r: u8)
        requires
            old(self).wf(),
        ensures
            final(self).wf(),
            Cpu::spec_same_but_flags(*old(self), *final(self)),
            r == (v * 2) % 256 + v / 128,
            final(self).spec_zero_flag() == (r == 0),
            final(self).spec_subtraction_flag() == false,
            final(self).spec_half_carry_flag() == false,
            final(self).spec_carry_flag() == (v / 128 == 1),
    {
        let result = (v % 128) * 2 + v / 128;
        self.set_flags_from_bools(result == 0, false, false, v / 128 == 1);
        result
    }

    /// Rotate left through carry: the old carry enters bit 0, bit 7
    /// leaves into C.
    pub fn rl_value(&mut self, v: u8) -> (r: u8)
        requires
            old(self).wf(),
        ensures
            final(self).wf(),
            Cpu::spec_same_but_flags(*old(self), *final(self)),
            r == (v * 2) % 256 + (if old(self).spec_carry_flag() {
                1int
            } else {
                0int
            }),
            final(self).spec_zero_flag() == (r == 0),
            final(self).spec_subtraction_flag() == false,
            final(self).spec_half_carry_flag() == false,
            final(self).spec_carry_flag() == (v / 128 == 1),
    {
        let old_carry: u8 = if self.get_carry_flag() {
            1
        } else {
            0
        };
        let result = (v % 128) * 2 + old_carry;
        self.set_flags_from_bools(result == 0, false, false, v / 128 == 1);
        result
    }

    /// Rotate right: bit 0 moves into both C and bit 7.
    pub fn rrc_value(&mut self, v: u8) -> (r: u8)
        requires
            old(self).wf(),
        ensures
            final(self).wf(),
            Cpu::spec_same_but_flags(*old(self), *final(self)),
            r == v / 2 + (v % 2) * 128,
            final(self).spec_zero_flag() == (r == 0),
            final(self).spec_subtraction_flag() == false,
            final(self).spec_half_carry_flag() == false,
            final(self).spec_carry_flag() == (v % 2 == 1),
    {
        let result = v / 2 + (v % 2) * 128;
        self.set_flags_from_bools(result == 0, false, false, v % 2 == 1);
        result
    }

    /// Rotate right through carry: the old carry enters bit 7, bit 0
    /// leaves into C.
    pub fn rr_value(&mut self, v: u8) -> (r: u8)
        requires
            old(self).wf(),
        ensures
            final(self).wf(),
            Cpu::spec_same_but_flags(*old(self), *final(self)),
            r == v / 2 + (if old(self).spec_carry_flag() {
                128int
            } else {
                0int
            }),
            final(self).spec_zero_flag() == (r == 0),
            final(self).spec_subtraction_flag() == false,
            final(self).spec_half_carry_flag() == false,
            final(self).spec_carry_flag() == (v % 2 == 1),
    {
        let old_carry: u8 = if self.get_carry_flag() {
            128
        } else {
            0
        };
        let result = v / 2 + old_carry;
        self.set_flags_from_bools(result == 0, false, false, v % 2 == 1);
        result
    }

    /// Arithmetic shift left: bit 7 leaves into C, zero enters.
    pub fn sla_value(&mut self, v: u8) -> (r: u8)
        requires
            old(self).wf(),
        ensures
            final(self).wf(),
            Cpu::spec_same_but_flags(*old(self), *final(self)),
            r == (v * 2) % 256,
            final(self).spec_zero_flag() == (r == 0),
            final(self).spec_subtraction_flag() == false,
            final(self).spec_half_carry_flag() == false,
            final(self).spec_carry_flag() == (v / 128 == 1),
    {
        let result = (v % 128) * 2;
        self.set_flags_from_bools(result == 0, false, false, v / 128 == 1);
        result
    }

    /// Arithmetic shift right: bit 0 leaves into C, bit 7 is kept.
    pub fn sra_value(&mut self, v: u8) -> (r: u8)
        requires
            old(self).wf(),
        ensures
            final(self).wf(),
            Cpu::spec_same_but_flags(*old(self), *final(self)),
            r == v / 2 + (v / 128) * 128,
            final(self).spec_zero_flag() == (r == 0),
            final(self).spec_subtraction_flag() == false,
            final(self).spec_half_carry_flag() == false,
            final(self).spec_carry_flag() == (v % 2 == 1),
    {
        let result = v / 2 + (v / 128) * 128;
        self.set_flags_from_bools(result == 0, false, false, v % 2 == 1);
        result
    }

    /// Swap nibbles; only Z can be set afterwards.
    pub fn swap_value(&mut self, v: u8) -> (r: u8)
        requires
            old(self).wf(),
        ensures
            final(self).wf(),
            Cpu::spec_same_but_flags(*old(self), *final(self)),
            r == (v % 16) * 16 + v / 16,
            final(self).spec_zero_flag() == (r == 0),
            final(self).spec_subtraction_flag() == false,
            final(self).spec_half_carry_flag() == false,
            final(self).spec_carry_flag() == false,
    {
        let result = (v % 16) * 16 + v / 16;
        self.set_flags_from_bools(result == 0, false, false, false);
        result
    }

    /// Logical shift right: bit 0 leaves into C, zero enters.
    pub fn srl_value(&mut self, v: u8) -> (r: u8)
        requires
            old(self).wf(),
        ensures
            final(self).wf(),
            Cpu::spec_same_but_flags(*old(self), *final(self)),
            r == v / 2,
            final(self).spec_zero_flag() == (r == 0),
            final(self).spec_subtraction_flag() == false,
            final(self).spec_half_carry_flag() == false,
            final(self).spec_carry_flag() == (v % 2 == 1),
    {
        let result = v / 2;
        self.set_flags_from_bools(result == 0, false, false, v % 2 == 1);
        result
    }

    /// Decimal-adjust A after a BCD add or subtract: 0x60 and 0x06
    /// corrections driven by C and H. Z follows the result, H clears,
    /// C can be set but never cleared by an add, and is kept by a
    /// subtract.
    #[verifier::rlimit(100)]
    #[verifier::spinoff_prover]
    pub fn daa(&mut self)
        requires
            old(self).wf(),
        ensures
            final(self).wf(),
            Cpu::spec_same_but_a_and_flags(*old(self), *final(self)),
            Cpu::spec_daa_result(*old(self), *final(self)),
    {
        let mut a = self.af.get_high();
        let n = self.get_subtraction_flag();
        let h = self.get_half_carry_flag();
        let mut c = self.get_carry_flag();
        if !n {
            if c || a > 0x99 {
                a = ((a as u16 + 0x60) % 256) as u8;
                c = true;
            }
            if h || a % 16 > 9 {
                a = ((a as u16 + 6) % 256) as u8;
            }
        } else {
            let sub: u16 = (if c {
                0x60
            } else {
                0
            }) + (if h {
                6
            } else {
                0
            });
            a = ((a as u16 + 0x200 - sub) % 256) as u8;
            proof {
                assert((old(self).af.high + 0x200 - sub) % 256 == (old(self).af.high - sub)
                    % 256);
            }
        }
        self.af.set_high(a);
        self.set_flags_from_bools(a == 0, n, false, c);
    }

    /// The sum of SP and a signed byte, with the flags ADD SP,e and
    /// LD HL,SP+e share: Z=0, N=0, H and C from the unsigned byte add
    /// of SP's low byte.
    fn sp_plus_signed(&mut self, d: i8) -> (r: u16)
        requires
            old(self).wf(),
        ensures
            final(self).wf(),
            Cpu::spec_same_but_flags(*old(self), *final(self)),
            r == (old(self).sp + crate::instruction::spec_u8_of_i8(d) + (if d < 0 {
                0xff00int
            } else {
                0int
            })) % 0x10000,
            r == (old(self).sp + d) % 0x10000,
            final(self).spec_zero_flag() == false,
            final(self).spec_subtraction_flag() == false,
            final(self).spec_half_carry_flag() == (old(self).sp % 16
                + crate::instruction::spec_u8_of_i8(d) % 16 > 15),
            final(self).spec_carry_flag() == (old(self).sp % 256
                + crate::instruction::spec_u8_of_i8(d) > 255),
    {
        let d_u8 = crate::instruction::u8_of_i8(d);
        let d_u16: u32 = if d < 0 {
            0xff00 + d_u8 as u32
        } else {
            d_u8 as u32
        };
        let sum: u16 = ((self.sp as u32 + d_u16) % 0x10000) as u16;
        let half_carry = self.sp % 16 + (d_u8 % 16) as u16 > 15;
        let carry = self.sp % 256 + d_u8 as u16 > 255;
        self.set_flags_from_bools(false, false, half_carry, carry);
        proof {
            if d < 0 {
                assert((old(self).sp + d_u8 + 0xff00int) % 0x10000 == (old(self).sp + d)
                    % 0x10000);
            }
        }
        sum
    }

    /// The lowest set bit's position: interrupt priority order.
    pub open spec fn spec_lowest_set_bit(m: u8) -> u8 {
        if m % 2 == 1 {
            0
        } else if (m / 2) % 2 == 1 {
            1
        } else if (m / 4) % 2 == 1 {
            2
        } else if (m / 8) % 2 == 1 {
            3
        } else {
            4
        }
    }

    fn lowest_set_bit(m: u8) -> (r: u8)
        ensures
            r == Cpu::spec_lowest_set_bit(m),
            r <= 4,
    {
        if m % 2 == 1 {
            0
        } else if (m / 2) % 2 == 1 {
            1
        } else if (m / 4) % 2 == 1 {
            2
        } else if (m / 8) % 2 == 1 {
            3
        } else {
            4
        }
    }

    /// Raises interrupt `interrupt_number` by setting its IF bit; a
    /// halted CPU returns to Running, a stopped one only for the
    /// joypad interrupt.
    pub fn interrupt(&mut self, memory_bus: &mut MemoryBus, interrupt_number: u8)
        requires
            old(self).wf(),
            old(memory_bus).wf(),
            interrupt_number < 5,
        ensures
            final(self).wf(),
            final(memory_bus).wf(),
            *final(self) == (Cpu { state: final(self).state, ..*old(self) }),
            old(self).state matches CpuState::Halted ==> final(self).state
                matches CpuState::Running,
            old(self).state matches CpuState::Stopped ==> (if interrupt_number == 4 {
                final(self).state matches CpuState::Running
            } else {
                final(self).state matches CpuState::Stopped
            }),
            old(self).state matches CpuState::Running ==> final(self).state
                matches CpuState::Running,
            !old(memory_bus).lcd.dma_running ==> ({
                let iflags = old(memory_bus).spec_bus_read(0xff0f);
                let mask = Cpu::spec_bit_mask(interrupt_number);
                &&& *final(memory_bus) == (MemoryBus {
                    interrupt_flags: final(memory_bus).interrupt_flags,
                    last_bus_value: final(memory_bus).last_bus_value,
                    break_reason: final(memory_bus).break_reason,
                    ..*old(memory_bus)
                })
                &&& final(memory_bus).interrupt_flags == (if (iflags / mask) % 2 == 1 {
                    iflags
                } else {
                    (iflags + mask) as u8
                })
            }),
    {
        let interrupt_flags = memory_bus.read_u8(INTERRUPT_FLAGS_REGISTER_ADDRESS);
        let raised = Cpu::set_bit(interrupt_number, interrupt_flags);
        memory_bus.write_u8(INTERRUPT_FLAGS_REGISTER_ADDRESS, raised);
        match self.state {
            CpuState::Halted => {
                self.state = CpuState::Running;
            },
            CpuState::Stopped => {
                if interrupt_number == 4 {
                    self.state = CpuState::Running;
                }
            },
            CpuState::Running => {},
        }
    }

    /// The IF bits a set of interrupt requests contributes.
    pub open spec fn spec_request_bits(requests: InterruptRequest) -> u8 {
        ((if requests.vblank {
            1int
        } else {
            0int
        }) + (if requests.stat {
            2int
        } else {
            0int
        }) + (if requests.timer {
            4int
        } else {
            0int
        }) + (if requests.serial {
            8int
        } else {
            0int
        }) + (if requests.joypad {
            16int
        } else {
            0int
        })) as u8
    }

    /// Raises every interrupt the peripherals flagged this step by
    /// ORing their bits into IF in one write; a halted CPU wakes on
    /// any of them, a stopped one only on the joypad's.
    pub fn request_interrupts(&mut self, memory_bus: &mut MemoryBus, requests: &InterruptRequest)
        requires
            old(self).wf(),
            old(memory_bus).wf(),
        ensures
            final(self).wf(),
            final(memory_bus).wf(),
            *final(self) == (Cpu { state: final(self).state, ..*old(self) }),
            old(self).state matches CpuState::Running ==> final(self).state
                matches CpuState::Running,
            old(self).state matches CpuState::Halted ==> (if Cpu::spec_request_bits(*requests)
                != 0 {
                final(self).state matches CpuState::Running
            } else {
                final(self).state matches CpuState::Halted
            }),
            old(self).state matches CpuState::Stopped ==> (if requests.joypad {
                final(self).state matches CpuState::Running
            } else {
                final(self).state matches CpuState::Stopped
            }),
            !old(memory_bus).lcd.dma_running ==> ({
                &&& *final(memory_bus) == (MemoryBus {
                    interrupt_flags: final(memory_bus).interrupt_flags,
                    last_bus_value: final(memory_bus).last_bus_value,
                    break_reason: final(memory_bus).break_reason,
                    ..*old(memory_bus)
                })
                &&& final(memory_bus).interrupt_flags == (old(memory_bus).spec_bus_read(0xff0f)
                    | Cpu::spec_request_bits(*requests))
            }),
    {
        let interrupt_flags = memory_bus.read_u8(INTERRUPT_FLAGS_REGISTER_ADDRESS);
        let mut bits: u8 = 0;
        if requests.vblank {
            bits = bits + 1;
        }
        if requests.stat {
            bits = bits + 2;
        }
        if requests.timer {
            bits = bits + 4;
        }
        if requests.serial {
            bits = bits + 8;
        }
        if requests.joypad {
            bits = bits + 16;
        }
        let raised = interrupt_flags | bits;
        memory_bus.write_u8(INTERRUPT_FLAGS_REGISTER_ADDRESS, raised);
        let any_requested = bits != 0;
        match self.state {
            CpuState::Halted => {
                if any_requested {
                    self.state = CpuState::Running;
                }
            },
            CpuState::Stopped => {
                if requests.joypad {
                    self.state = CpuState::Running;
                }
            },
            CpuState::Running => {},
        }
    }

    /// Decodes the instruction at an address without disturbing the
    /// bus.
    #[must_use]
    pub fn get_instruction_at_address(&self, memory_bus: &MemoryBus, address: u16) -> (r:
        Instruction)
        requires
            memory_bus.wf(),
        ensures
            r.address == address,
            r.op == spec_decode(
                memory_bus.spec_bus_read(address),
                memory_bus.spec_bus_read(crate::memory_bus::spec_wrap_addr(address, 1)),
                memory_bus.spec_bus_read(crate::memory_bus::spec_wrap_addr(address, 2)),
            ),
    {
        let b0 = memory_bus.peek(address);
        let b1 = memory_bus.peek(((address as u32 + 1) % 0x10000) as u16);
        let b2 = memory_bus.peek(((address as u32 + 2) % 0x10000) as u16);
        Instruction::new(address, b0, b1, b2)
    }

    /// The instruction PC points at.
    #[must_use]
    pub fn get_next_instruction(&self, memory_bus: &MemoryBus) -> (r: Instruction)
        requires
            memory_bus.wf(),
        ensures
            r.address == self.pc,
            r.op == spec_decode(
                memory_bus.spec_bus_read(self.pc),
                memory_bus.spec_bus_read(crate::memory_bus::spec_wrap_addr(self.pc, 1)),
                memory_bus.spec_bus_read(crate::memory_bus::spec_wrap_addr(self.pc, 2)),
            ),
    {
        self.get_instruction_at_address(memory_bus, self.pc)
    }

    /// A byte load into an 8-bit register from behind a pointer
    /// operand, while no OAM-DMA runs: which address is read and, for
    /// the post-increment and post-decrement forms, how HL moves.
    pub open spec fn spec_ld8_load_effect(
        pre: Cpu,
        prebus: MemoryBus,
        post: Cpu,
        postbus: MemoryBus,
        rd: Register,
        d: DerefOperand,
        r: Option<u64>,
    ) -> bool {
        match d {
            DerefOperand::Register(Register::Hl) => !prebus.lcd.dma_running ==> {
                &&& Cpu::spec_r8_written(pre, post, rd, prebus.spec_bus_read(pre.hl.spec_u16()))
                &&& MemoryBus::spec_read_frame(prebus, postbus)
                &&& r == Option::Some(8u64)
            },
            DerefOperand::Register(Register::Bc) => match rd {
                Register::A => !prebus.lcd.dma_running ==> {
                    &&& Cpu::spec_r8_written(
                        pre,
                        post,
                        Register::A,
                        prebus.spec_bus_read(pre.bc.spec_u16()),
                    )
                    &&& MemoryBus::spec_read_frame(prebus, postbus)
                    &&& r == Option::Some(8u64)
                },
                _ => r is None,
            },
            DerefOperand::Register(Register::De) => match rd {
                Register::A => !prebus.lcd.dma_running ==> {
                    &&& Cpu::spec_r8_written(
                        pre,
                        post,
                        Register::A,
                        prebus.spec_bus_read(pre.de.spec_u16()),
                    )
                    &&& MemoryBus::spec_read_frame(prebus, postbus)
                    &&& r == Option::Some(8u64)
                },
                _ => r is None,
            },
            DerefOperand::Register(Register::HlPlus) => match rd {
                Register::A => {
                    &&& post == (Cpu {
                        pc: post.pc,
                        af: RegisterStorage { high: post.af.high, ..pre.af },
                        hl: post.hl,
                        ..pre
                    })
                    &&& post.hl.spec_u16() == (pre.hl.spec_u16() + 1) % 0x10000
                    &&& (!prebus.lcd.dma_running ==> post.af.high == prebus.spec_bus_read(
                        pre.hl.spec_u16(),
                    ) && MemoryBus::spec_read_frame(prebus, postbus))
                    &&& r == Option::Some(8u64)
                },
                _ => r is None,
            },
            DerefOperand::Register(Register::HlMinus) => match rd {
                Register::A => {
                    &&& post == (Cpu {
                        pc: post.pc,
                        af: RegisterStorage { high: post.af.high, ..pre.af },
                        hl: post.hl,
                        ..pre
                    })
                    &&& post.hl.spec_u16() == (pre.hl.spec_u16() + 0xffff) % 0x10000
                    &&& (!prebus.lcd.dma_running ==> post.af.high == prebus.spec_bus_read(
                        pre.hl.spec_u16(),
                    ) && MemoryBus::spec_read_frame(prebus, postbus))
                    &&& r == Option::Some(8u64)
                },
                _ => r is None,
            },
            DerefOperand::Register(..) => r is None,
            DerefOperand::Address(addr) => match rd {
                Register::A => !prebus.lcd.dma_running ==> {
                    &&& Cpu::spec_r8_written(pre, post, Register::A, prebus.spec_bus_read(addr))
                    &&& MemoryBus::spec_read_frame(prebus, postbus)
                    &&& r == Option::Some(16u64)
                },
                _ => r is None,
            },
            DerefOperand::Ff00Offset(offset) => match rd {
                Register::A => !prebus.lcd.dma_running ==> {
                    &&& Cpu::spec_r8_written(
                        pre,
                        post,
                        Register::A,
                        prebus.spec_bus_read((0xff00 + offset) as u16),
                    )
                    &&& MemoryBus::spec_read_frame(prebus, postbus)
                    &&& r == Option::Some(12u64)
                },
                _ => r is None,
            },
            DerefOperand::Ff00PlusC => match rd {
                Register::A => !prebus.lcd.dma_running ==> {
                    &&& Cpu::spec_r8_written(
                        pre,
                        post,
                        Register::A,
                        prebus.spec_bus_read((0xff00 + pre.bc.low) as u16),
                    )
                    &&& MemoryBus::spec_read_frame(prebus, postbus)
                    &&& r == Option::Some(8u64)
                },
                _ => r is None,
            },
        }
    }

    /// A byte store through a pointer operand, while no OAM-DMA runs:
    /// which address receives which byte (per the bus write-effect
    /// spec), and how HL moves for the post-increment and
    /// post-decrement forms.
    pub open spec fn spec_ld8_store_effect(
        pre: Cpu,
        prebus: MemoryBus,
        post: Cpu,
        postbus: MemoryBus,
        d: DerefOperand,
        source: Operand,
        r: Option<u64>,
    ) -> bool {
        match d {
            DerefOperand::Register(Register::Hl) => match source {
                Operand::Register(rs) => if Cpu::spec_is_r8(rs) {
                    &&& Cpu::spec_only_pc(pre, post)
                    &&& (!prebus.lcd.dma_running ==> MemoryBus::spec_write_effect(
                        prebus,
                        postbus,
                        pre.hl.spec_u16(),
                        pre.spec_r8(rs),
                    ))
                    &&& r == Option::Some(8u64)
                } else {
                    r is None
                },
                Operand::U8(v) => {
                    &&& Cpu::spec_only_pc(pre, post)
                    &&& (!prebus.lcd.dma_running ==> MemoryBus::spec_write_effect(
                        prebus,
                        postbus,
                        pre.hl.spec_u16(),
                        v,
                    ))
                    &&& r == Option::Some(12u64)
                },
                _ => r is None,
            },
            DerefOperand::Register(Register::Bc) => match source {
                Operand::Register(Register::A) => {
                    &&& Cpu::spec_only_pc(pre, post)
                    &&& (!prebus.lcd.dma_running ==> MemoryBus::spec_write_effect(
                        prebus,
                        postbus,
                        pre.bc.spec_u16(),
                        pre.af.high,
                    ))
                    &&& r == Option::Some(8u64)
                },
                _ => r is None,
            },
            DerefOperand::Register(Register::De) => match source {
                Operand::Register(Register::A) => {
                    &&& Cpu::spec_only_pc(pre, post)
                    &&& (!prebus.lcd.dma_running ==> MemoryBus::spec_write_effect(
                        prebus,
                        postbus,
                        pre.de.spec_u16(),
                        pre.af.high,
                    ))
                    &&& r == Option::Some(8u64)
                },
                _ => r is None,
            },
            DerefOperand::Register(Register::HlPlus) => match source {
                Operand::Register(Register::A) => {
                    &&& post == (Cpu { pc: post.pc, hl: post.hl, ..pre })
                    &&& post.hl.spec_u16() == (pre.hl.spec_u16() + 1) % 0x10000
                    &&& (!prebus.lcd.dma_running ==> MemoryBus::spec_write_effect(
                        prebus,
                        postbus,
                        pre.hl.spec_u16(),
                        pre.af.high,
                    ))
                    &&& r == Option::Some(8u64)
                },
                _ => r is None,
            },
            DerefOperand::Register(Register::HlMinus) => match source {
                Operand::Register(Register::A) => {
                    &&& post == (Cpu { pc: post.pc, hl: post.hl, ..pre })
                    &&& post.hl.spec_u16() == (pre.hl.spec_u16() + 0xffff) % 0x10000
                    &&& (!prebus.lcd.dma_running ==> MemoryBus::spec_write_effect(
                        prebus,
                        postbus,
                        pre.hl.spec_u16(),
                        pre.af.high,
                    ))
                    &&& r == Option::Some(8u64)
                },
                _ => r is None,
            },
            DerefOperand::Register(..) => r is None,
            DerefOperand::Address(addr) => match source {
                Operand::Register(Register::A) => {
                    &&& Cpu::spec_only_pc(pre, post)
                    &&& (!prebus.lcd.dma_running ==> MemoryBus::spec_write_effect(
                        prebus,
                        postbus,
                        addr,
                        pre.af.high,
                    ))
                    &&& r == Option::Some(16u64)
                },
                _ => r is None,
            },
            DerefOperand::Ff00Offset(offset) => match source {
                Operand::Register(Register::A) => {
                    &&& Cpu::spec_only_pc(pre, post)
                    &&& (!prebus.lcd.dma_running ==> MemoryBus::spec_write_effect(
                        prebus,
                        postbus,
                        (0xff00 + offset) as u16,
                        pre.af.high,
                    ))
                    &&& r == Option::Some(12u64)
                },
                _ => r is None,
            },
            DerefOperand::Ff00PlusC => match source {
                Operand::Register(Register::A) => {
                    &&& Cpu::spec_only_pc(pre, post)
                    &&& (!prebus.lcd.dma_running ==> MemoryBus::spec_write_effect(
                        prebus,
                        postbus,
                        (0xff00 + pre.bc.low) as u16,
                        pre.af.high,
                    ))
                    &&& r == Option::Some(8u64)
                },
                _ => r is None,
            },
        }
    }

    /// PUSH and POP: a word between a register pair and the stack.
    #[verifier::rlimit(100)]
    #[verifier::spinoff_prover]
    fn execute_stack_op(&mut self, memory_bus: &mut MemoryBus, op: Opcode) -> (r: Option<u64>)
        requires
            old(self).wf(),
            old(memory_bus).wf(),
            op matches Opcode::Pop { .. } || op matches Opcode::Push { .. },
        ensures
            final(self).wf(),
            final(memory_bus).wf(),
            r matches Option::Some(cycles) ==> cycles == 12 || cycles == 16,
            final(self).pc == old(self).pc,
            Cpu::spec_execute_effect(
                *old(self),
                *old(memory_bus),
                *final(self),
                *final(memory_bus),
                op,
                r,
            ),
    {
        match op {
            Opcode::Pop { register } => {
                match register {
                    Register::Bc => {
                        let v = self.pop(memory_bus);
                        self.bc.set_u16(v);
                        Option::Some(12)
                    },
                    Register::De => {
                        let v = self.pop(memory_bus);
                        self.de.set_u16(v);
                        Option::Some(12)
                    },
                    Register::Hl => {
                        let v = self.pop(memory_bus);
                        self.hl.set_u16(v);
                        Option::Some(12)
                    },
                    Register::Af => {
                        let v = self.pop(memory_bus);
                        self.af.set_u16((v / 16) * 16);
                        Option::Some(12)
                    },
                    _ => Option::None,
                }
            },
            Opcode::Push { register } => {
                match register {
                    Register::Bc => {
                        let v = self.bc.get_u16();
                        self.push(memory_bus, v);
                        Option::Some(16)
                    },
                    Register::De => {
                        let v = self.de.get_u16();
                        self.push(memory_bus, v);
                        Option::Some(16)
                    },
                    Register::Hl => {
                        let v = self.hl.get_u16();
                        self.push(memory_bus, v);
                        Option::Some(16)
                    },
                    Register::Af => {
                        let v = self.af.get_u16();
                        self.push(memory_bus, v);
                        Option::Some(16)
                    },
                    _ => Option::None,
                }
            },
            _ => Option::None,
        }
    }

    /// The jump, call, return, stack and restart family; `orig_pc` is
    /// PC before the instruction was fetched, which return addresses
    /// and untaken branches are computed from.
    #[verifier::rlimit(100)]
    #[verifier::spinoff_prover]
    fn execute_control_op(&mut self, memory_bus: &mut MemoryBus, op: Opcode, orig_pc: u16) -> (r:
        Option<u64>)
        requires
            old(self).wf(),
            old(memory_bus).wf(),
            old(self).pc == (orig_pc + spec_size(op)) % 0x10000,
            op matches Opcode::Jp { .. } || op matches Opcode::JpCond { .. } || op
                matches Opcode::Jr { .. } || op matches Opcode::JrCond { .. } || op
                matches Opcode::Call { .. } || op matches Opcode::CallCond { .. } || op
                matches Opcode::Ret || op matches Opcode::RetCond { .. } || op
                matches Opcode::Reti || op matches Opcode::Rst { .. },
        ensures
            final(self).wf(),
            final(memory_bus).wf(),
            r matches Option::Some(cycles) ==> 4 <= cycles <= 24,
            Cpu::spec_execute_effect(
                (Cpu { pc: orig_pc, ..*old(self) }),
                *old(memory_bus),
                *final(self),
                *final(memory_bus),
                op,
                r,
            ),
    {
        match op {
            Opcode::Jp { destination } => {
                match destination {
                    Operand::U16(address) => {
                        self.pc = address;
                        Option::Some(16)
                    },
                    Operand::Register(Register::Hl) => {
                        self.pc = self.hl.get_u16();
                        Option::Some(4)
                    },
                    _ => Option::None,
                }
            },
            Opcode::JpCond { condition, destination } => {
                if self.check_condition(condition) {
                    self.pc = destination;
                    Option::Some(16)
                } else {
                    Option::Some(12)
                }
            },
            Opcode::Jr { offset } => {
                self.pc = Cpu::relative_target(self.pc, offset);
                Option::Some(12)
            },
            Opcode::JrCond { condition, offset } => {
                if self.check_condition(condition) {
                    self.pc = Cpu::relative_target(self.pc, offset);
                    Option::Some(12)
                } else {
                    Option::Some(8)
                }
            },
            Opcode::Call { destination } => {
                self.call(memory_bus, destination);
                Option::Some(24)
            },
            Opcode::CallCond { condition, destination } => {
                if self.check_condition(condition) {
                    self.call(memory_bus, destination);
                    Option::Some(24)
                } else {
                    Option::Some(12)
                }
            },
            Opcode::Ret => {
                self.ret(memory_bus);
                Option::Some(16)
            },
            Opcode::RetCond { condition } => {
                if self.check_condition(condition) {
                    self.ret(memory_bus);
                    Option::Some(20)
                } else {
                    Option::Some(8)
                }
            },
            Opcode::Reti => {
                self.ret(memory_bus);
                self.interrupt_master_enable = true;
                Option::Some(16)
            },
            Opcode::Rst { vector } => {
                self.call(memory_bus, vector as u16);
                Option::Some(16)
            },
            _ => Option::None,
        }
    }

    /// The eight-member 8-bit arithmetic and logic family.
    #[verifier::rlimit(100)]
    #[verifier::spinoff_prover]
    fn execute_alu_op(&mut self, memory_bus: &mut MemoryBus, op: Opcode) -> (r: Option<u64>)
        requires
            old(self).wf(),
            old(memory_bus).wf(),
            op matches Opcode::Add8 { .. } || op matches Opcode::Adc { .. } || op
                matches Opcode::Sub { .. } || op matches Opcode::Sbc { .. } || op
                matches Opcode::And { .. } || op matches Opcode::Xor { .. } || op
                matches Opcode::Or { .. } || op matches Opcode::Cp { .. },
        ensures
            final(self).wf(),
            final(memory_bus).wf(),
            r matches Option::Some(cycles) ==> cycles == 4 || cycles == 8,
            final(self).pc == old(self).pc,
            Cpu::spec_execute_effect(
                *old(self),
                *old(memory_bus),
                *final(self),
                *final(memory_bus),
                op,
                r,
            ),
    {
        match op {
            Opcode::Add8 { operand } => {
                match self.extract_u8_arithmetic_operand(memory_bus, &operand) {
                    Option::Some((v, cycles)) => {
                        self.add8_with_carry(v, false, false);
                        Option::Some(cycles)
                    },
                    Option::None => Option::None,
                }
            },
            Opcode::Adc { operand } => {
                match self.extract_u8_arithmetic_operand(memory_bus, &operand) {
                    Option::Some((v, cycles)) => {
                        self.add8_with_carry(v, true, false);
                        Option::Some(cycles)
                    },
                    Option::None => Option::None,
                }
            },
            Opcode::Sub { operand } => {
                match self.extract_u8_arithmetic_operand(memory_bus, &operand) {
                    Option::Some((v, cycles)) => {
                        self.add8_with_carry(v, false, true);
                        Option::Some(cycles)
                    },
                    Option::None => Option::None,
                }
            },
            Opcode::Sbc { operand } => {
                match self.extract_u8_arithmetic_operand(memory_bus, &operand) {
                    Option::Some((v, cycles)) => {
                        self.add8_with_carry(v, true, true);
                        Option::Some(cycles)
                    },
                    Option::None => Option::None,
                }
            },
            Opcode::And { operand } => {
                match self.extract_u8_arithmetic_operand(memory_bus, &operand) {
                    Option::Some((v, cycles)) => {
                        self.and_a(v);
                        Option::Some(cycles)
                    },
                    Option::None => Option::None,
                }
            },
            Opcode::Xor { operand } => {
                match self.extract_u8_arithmetic_operand(memory_bus, &operand) {
                    Option::Some((v, cycles)) => {
                        self.xor_a(v);
                        Option::Some(cycles)
                    },
                    Option::None => Option::None,
                }
            },
            Opcode::Or { operand } => {
                match self.extract_u8_arithmetic_operand(memory_bus, &operand) {
                    Option::Some((v, cycles)) => {
                        self.or_a(v);
                        Option::Some(cycles)
                    },
                    Option::None => Option::None,
                }
            },
            Opcode::Cp { operand } => {
                match self.extract_u8_arithmetic_operand(memory_bus, &operand) {
                    Option::Some((v, cycles)) => {
                        self.cp_a(v);
                        Option::Some(cycles)
                    },
                    Option::None => Option::None,
                }
            },
            _ => Option::None,
        }
    }

    /// The mode, interrupt-enable, accumulator-only and 16-bit
    /// counter family: everything that never touches the bus.
    #[verifier::rlimit(100)]
    #[verifier::spinoff_prover]
    fn execute_misc_op(&mut self, memory_bus: &mut MemoryBus, op: Opcode, orig_pc: u16) -> (r:
        Option<u64>)
        requires
            old(self).wf(),
            old(memory_bus).wf(),
            op matches Opcode::Stop || op matches Opcode::Halt || op matches Opcode::Di || op
                matches Opcode::Ei || op matches Opcode::Cpl || op matches Opcode::Daa || op
                matches Opcode::Rlca || op matches Opcode::Rla || op matches Opcode::Rrca || op
                matches Opcode::Rra || op matches Opcode::Scf || op matches Opcode::Ccf || op
                matches Opcode::Inc16 { .. } || op matches Opcode::Dec16 { .. },
        ensures
            final(self).wf(),
            final(memory_bus).wf(),
            r matches Option::Some(cycles) ==> cycles == 4 || cycles == 8,
            final(self).pc == old(self).pc,
            *final(memory_bus) == *old(memory_bus),
            Cpu::spec_execute_effect(
                (Cpu { pc: orig_pc, ..*old(self) }),
                *old(memory_bus),
                *final(self),
                *final(memory_bus),
                op,
                r,
            ),
    {
        match op {
            Opcode::Stop => {
                self.state = CpuState::Stopped;
                Option::Some(4)
            },
            Opcode::Halt => {
                self.state = CpuState::Halted;
                Option::Some(4)
            },
            Opcode::Di => {
                self.interrupt_master_enable = false;
                Option::Some(4)
            },
            Opcode::Ei => {
                self.interrupt_master_enable = true;
                Option::Some(4)
            },
            Opcode::Cpl => {
                let a = self.get_a();
                self.set_a(!a);
                self.set_subtraction_flag_from_bool(true);
                self.set_half_carry_flag_from_bool(true);
                Option::Some(4)
            },
            Opcode::Daa => {
                self.daa();
                Option::Some(4)
            },
            Opcode::Rlca => {
                let a = self.get_a();
                let result = self.rlc_value(a);
                self.set_a(result);
                self.set_zero_flag_from_bool(false);
                Option::Some(4)
            },
            Opcode::Rla => {
                let a = self.get_a();
                let result = self.rl_value(a);
                self.set_a(result);
                self.set_zero_flag_from_bool(false);
                Option::Some(4)
            },
            Opcode::Rrca => {
                let a = self.get_a();
                let result = self.rrc_value(a);
                self.set_a(result);
                self.set_zero_flag_from_bool(false);
                Option::Some(4)
            },
            Opcode::Rra => {
                let a = self.get_a();
                let result = self.rr_value(a);
                self.set_a(result);
                self.set_zero_flag_from_bool(false);
                Option::Some(4)
            },
            Opcode::Scf => {
                self.set_carry_flag_from_bool(true);
                self.set_half_carry_flag_from_bool(false);
                self.set_subtraction_flag_from_bool(false);
                Option::Some(4)
            },
            Opcode::Ccf => {
                let c = self.get_carry_flag();
                self.set_carry_flag_from_bool(!c);
                self.set_half_carry_flag_from_bool(false);
                self.set_subtraction_flag_from_bool(false);
                Option::Some(4)
            },
            Opcode::Inc16 { register } => {
                if !matches!(
                    register,
                    Register::Bc | Register::De | Register::Hl | Register::Sp
                ) {
                    return Option::None;
                }
                let v = self.get_r16(&register);
                self.set_r16(&register, ((v as u32 + 1) % 0x10000) as u16);
                Option::Some(8)
            },
            Opcode::Dec16 { register } => {
                if !matches!(
                    register,
                    Register::Bc | Register::De | Register::Hl | Register::Sp
                ) {
                    return Option::None;
                }
                let v = self.get_r16(&register);
                self.set_r16(&register, ((v as u32 + 0xffff) % 0x10000) as u16);
                Option::Some(8)
            },
            _ => Option::None,
        }
    }

    /// The byte-load family's whole effect.
    pub open spec fn spec_ld8_effect(
        pre: Cpu,
        prebus: MemoryBus,
        post: Cpu,
        postbus: MemoryBus,
        destination: Operand,
        source: Operand,
        r: Option<u64>,
    ) -> bool {
        match destination {
            Operand::Register(rd) => if !Cpu::spec_is_r8(rd) {
                r is None
            } else {
                match source {
                    Operand::Register(rs) => if Cpu::spec_is_r8(rs) {
                        &&& Cpu::spec_r8_written(pre, post, rd, pre.spec_r8(rs))
                        &&& postbus == prebus
                        &&& r == Option::Some(4u64)
                    } else {
                        r is None
                    },
                    Operand::U8(v) => {
                        &&& Cpu::spec_r8_written(pre, post, rd, v)
                        &&& postbus == prebus
                        &&& r == Option::Some(8u64)
                    },
                    Operand::Deref(d) => Cpu::spec_ld8_load_effect(
                        pre,
                        prebus,
                        post,
                        postbus,
                        rd,
                        d,
                        r,
                    ),
                    _ => r is None,
                }
            },
            Operand::Deref(d) => Cpu::spec_ld8_store_effect(pre, prebus, post, postbus, d, source, r),
            _ => r is None,
        }
    }

    /// The word-load family's whole effect.
    pub open spec fn spec_ld16_effect(
        pre: Cpu,
        prebus: MemoryBus,
        post: Cpu,
        postbus: MemoryBus,
        destination: Operand,
        source: Operand,
        r: Option<u64>,
    ) -> bool {
        match destination {
            Operand::Register(rd) => if !Cpu::spec_is_r16(rd) {
                r is None
            } else {
                match source {
                    Operand::U16(v) => {
                        &&& post.spec_r16(rd) == v
                        &&& post.af == pre.af
                        &&& post.state == pre.state
                        &&& post.interrupt_master_enable == pre.interrupt_master_enable
                        &&& (forall|r2: Register|
                            Cpu::spec_is_r16(r2) && r2 != rd ==> post.spec_r16(r2)
                                == pre.spec_r16(r2))
                        &&& postbus == prebus
                        &&& r == Option::Some(12u64)
                    },
                    Operand::Register(Register::Hl) => match rd {
                        Register::Sp => {
                            &&& post == (Cpu { pc: post.pc, sp: pre.hl.spec_u16(), ..pre })
                            &&& postbus == prebus
                            &&& r == Option::Some(8u64)
                        },
                        _ => r is None,
                    },
                    Operand::StackOffset(d) => match rd {
                        Register::Hl => {
                            &&& post.hl.spec_u16() == (pre.sp + d) % 0x10000
                            &&& Cpu::spec_flags_set(
                                post,
                                false,
                                false,
                                pre.sp % 16 + crate::instruction::spec_u8_of_i8(d) % 16 > 15,
                                pre.sp % 256 + crate::instruction::spec_u8_of_i8(d) > 255,
                            )
                            &&& post.bc == pre.bc
                            &&& post.de == pre.de
                            &&& post.sp == pre.sp
                            &&& post.state == pre.state
                            &&& post.interrupt_master_enable == pre.interrupt_master_enable
                            &&& post.af.high == pre.af.high
                            &&& postbus == prebus
                            &&& r == Option::Some(12u64)
                        },
                        _ => r is None,
                    },
                    _ => r is None,
                }
            },
            Operand::Deref(DerefOperand::Address(addr)) => match source {
                Operand::Register(Register::Sp) => {
                    &&& Cpu::spec_only_pc(pre, post)
                    &&& (!prebus.lcd.dma_running ==> MemoryBus::spec_word_write_effect(
                        prebus,
                        postbus,
                        addr,
                        pre.sp,
                    ))
                    &&& r == Option::Some(20u64)
                },
                _ => r is None,
            },
            _ => r is None,
        }
    }

    /// A call's effect: the return address pushed, PC at the target.
    pub open spec fn spec_call_effect(
        pre: Cpu,
        prebus: MemoryBus,
        post: Cpu,
        postbus: MemoryBus,
        destination: u16,
        ret: u16,
    ) -> bool {
        &&& post == (Cpu { pc: destination, sp: post.sp, ..pre })
        &&& post.sp == (pre.sp as int - 2) % 0x10000
        &&& (!prebus.lcd.dma_running ==> MemoryBus::spec_word_write_effect(
            prebus,
            postbus,
            post.sp,
            ret,
        ))
    }

    /// A return's effect: PC popped from the stack.
    pub open spec fn spec_ret_effect(
        pre: Cpu,
        prebus: MemoryBus,
        post: Cpu,
        postbus: MemoryBus,
    ) -> bool {
        &&& post == (Cpu { pc: post.pc, sp: post.sp, ..pre })
        &&& post.sp == (pre.sp + 2) % 0x10000
        &&& (!prebus.lcd.dma_running ==> post.pc == prebus.spec_bus_read(pre.sp) + 256
            * prebus.spec_bus_read(crate::memory_bus::spec_wrap_addr(pre.sp, 1))
            && MemoryBus::spec_read_frame(prebus, postbus))
    }

    /// POP's effect: the addressed pair takes the word at SP (AF
    /// keeps only bits 4 and up, so F's low nibble stays zero).
    pub open spec fn spec_pop_effect(
        pre: Cpu,
        prebus: MemoryBus,
        post: Cpu,
        postbus: MemoryBus,
        register: Register,
        r: Option<u64>,
    ) -> bool {
        let w = prebus.spec_bus_read(pre.sp) + 256 * prebus.spec_bus_read(
            crate::memory_bus::spec_wrap_addr(pre.sp, 1),
        );
        match register {
            Register::Bc => {
                &&& post == (Cpu { pc: post.pc, sp: post.sp, bc: post.bc, ..pre })
                &&& post.sp == (pre.sp + 2) % 0x10000
                &&& (!prebus.lcd.dma_running ==> post.bc.spec_u16() == w
                    && MemoryBus::spec_read_frame(prebus, postbus))
                &&& r == Option::Some(12u64)
            },
            Register::De => {
                &&& post == (Cpu { pc: post.pc, sp: post.sp, de: post.de, ..pre })
                &&& post.sp == (pre.sp + 2) % 0x10000
                &&& (!prebus.lcd.dma_running ==> post.de.spec_u16() == w
                    && MemoryBus::spec_read_frame(prebus, postbus))
                &&& r == Option::Some(12u64)
            },
            Register::Hl => {
                &&& post == (Cpu { pc: post.pc, sp: post.sp, hl: post.hl, ..pre })
                &&& post.sp == (pre.sp + 2) % 0x10000
                &&& (!prebus.lcd.dma_running ==> post.hl.spec_u16() == w
                    && MemoryBus::spec_read_frame(prebus, postbus))
                &&& r == Option::Some(12u64)
            },
            Register::Af => {
                &&& post == (Cpu { pc: post.pc, sp: post.sp, af: post.af, ..pre })
                &&& post.sp == (pre.sp + 2) % 0x10000
                &&& (!prebus.lcd.dma_running ==> post.af.spec_u16() == (w / 16) * 16
                    && MemoryBus::spec_read_frame(prebus, postbus))
                &&& r == Option::Some(12u64)
            },
            _ => r is None,
        }
    }

    /// PUSH's effect: the addressed pair's word stored at the new SP.
    pub open spec fn spec_push_op_effect(
        pre: Cpu,
        prebus: MemoryBus,
        post: Cpu,
        postbus: MemoryBus,
        register: Register,
        r: Option<u64>,
    ) -> bool {
        let v: Option<u16> = match register {
            Register::Bc => Option::Some(pre.bc.spec_u16()),
            Register::De => Option::Some(pre.de.spec_u16()),
            Register::Hl => Option::Some(pre.hl.spec_u16()),
            Register::Af => Option::Some(pre.af.spec_u16()),
            _ => Option::None,
        };
        match v {
            Option::Some(word) => {
                &&& post == (Cpu { pc: post.pc, sp: post.sp, ..pre })
                &&& post.sp == (pre.sp as int - 2) % 0x10000
                &&& (!prebus.lcd.dma_running ==> MemoryBus::spec_word_write_effect(
                    prebus,
                    postbus,
                    post.sp,
                    word,
                ))
                &&& r == Option::Some(16u64)
            },
            Option::None => r is None,
        }
    }

    /// The 8-bit add/subtract family's effect, when the pre-state
    /// pins the operand byte down.
    pub open spec fn spec_alu8_effect(
        pre: Cpu,
        prebus: MemoryBus,
        post: Cpu,
        postbus: MemoryBus,
        operand: Operand,
        use_carry: bool,
        subtraction: bool,
        r: Option<u64>,
    ) -> bool {
        Cpu::spec_operand_byte(pre, prebus, operand) matches Option::Some(b) ==> {
            &&& Cpu::spec_add8_result(pre, post, b, use_carry, subtraction)
            &&& Cpu::spec_only_pc_a_flags(pre, post)
            &&& MemoryBus::spec_read_frame(prebus, postbus)
            &&& r == Option::Some(Cpu::spec_operand_cycles(operand))
        }
    }

    /// The AND/XOR/OR/CP family's effect, by kind in that order.
    pub open spec fn spec_logic8_effect(
        pre: Cpu,
        prebus: MemoryBus,
        post: Cpu,
        postbus: MemoryBus,
        operand: Operand,
        kind: int,
        r: Option<u64>,
    ) -> bool {
        Cpu::spec_operand_byte(pre, prebus, operand) matches Option::Some(b) ==> {
            let a = pre.af.high;
            &&& (kind == 0 ==> post.af.high == (a & b) && Cpu::spec_flags_set(
                post,
                (a & b) == 0,
                false,
                true,
                false,
            ))
            &&& (kind == 1 ==> post.af.high == (a ^ b) && Cpu::spec_flags_set(
                post,
                (a ^ b) == 0,
                false,
                false,
                false,
            ))
            &&& (kind == 2 ==> post.af.high == (a | b) && Cpu::spec_flags_set(
                post,
                (a | b) == 0,
                false,
                false,
                false,
            ))
            &&& (kind == 3 ==> post.af.high == a && Cpu::spec_flags_set(
                post,
                a == b,
                true,
                a % 16 < b % 16,
                (a as int) < b,
            ))
            &&& Cpu::spec_only_pc_a_flags(pre, post)
            &&& MemoryBus::spec_read_frame(prebus, postbus)
            &&& r == Option::Some(Cpu::spec_operand_cycles(operand))
        }
    }

    /// INC's and DEC's effect: the value moves by one modulo 256 with
    /// Z, N, H from the step and C untouched; for the (HL) form the
    /// flags follow the byte behind HL (the cell's new value is the
    /// bus's affair).
    pub open spec fn spec_incdec8_effect(
        pre: Cpu,
        prebus: MemoryBus,
        post: Cpu,
        postbus: MemoryBus,
        operand: Operand,
        dec: bool,
        r: Option<u64>,
    ) -> bool {
        match operand {
            Operand::Register(reg) => if !Cpu::spec_is_r8(reg) {
                r is None
            } else {
                let v = pre.spec_r8(reg) as int;
                let res: int = if dec {
                    (v - 1) % 256
                } else {
                    (v + 1) % 256
                };
                &&& post.spec_r8(reg) == res
                &&& Cpu::spec_flags_set(
                    post,
                    res == 0,
                    dec,
                    if dec {
                        v % 16 == 0
                    } else {
                        v % 16 == 15
                    },
                    pre.spec_carry_flag(),
                )
                &&& post.sp == pre.sp
                &&& post.state == pre.state
                &&& post.interrupt_master_enable == pre.interrupt_master_enable
                &&& (forall|r2: Register|
                    Cpu::spec_is_r8(r2) && r2 != reg ==> post.spec_r8(r2) == pre.spec_r8(r2))
                &&& postbus == prebus
                &&& r == Option::Some(4u64)
            },
            Operand::Deref(DerefOperand::Register(Register::Hl)) => !prebus.lcd.dma_running
                ==> ({
                let v = prebus.spec_bus_read(pre.hl.spec_u16()) as int;
                let res: int = if dec {
                    (v - 1) % 256
                } else {
                    (v + 1) % 256
                };
                &&& Cpu::spec_only_pc_flags(pre, post)
                &&& Cpu::spec_flags_set(
                    post,
                    res == 0,
                    dec,
                    if dec {
                        v % 16 == 0
                    } else {
                        v % 16 == 15
                    },
                    pre.spec_carry_flag(),
                )
                &&& MemoryBus::spec_write_data_effect(
                    prebus,
                    postbus,
                    pre.hl.spec_u16(),
                    res as u8,
                )
                &&& r == Option::Some(12u64)
            }),
            _ => r is None,
        }
    }

    /// The CB rotate/shift family's effect, by kind in table order.
    pub open spec fn spec_rotate_op_effect(
        pre: Cpu,
        prebus: MemoryBus,
        post: Cpu,
        postbus: MemoryBus,
        kind: u8,
        operand: Operand,
        r: Option<u64>,
    ) -> bool {
        match operand {
            Operand::Register(reg) => if !Cpu::spec_is_r8(reg) {
                r is None
            } else {
                let v = pre.spec_r8(reg);
                &&& post.spec_r8(reg) == Cpu::spec_rotate_result(kind, v, pre.spec_carry_flag())
                &&& Cpu::spec_flags_set(
                    post,
                    Cpu::spec_rotate_result(kind, v, pre.spec_carry_flag()) == 0,
                    false,
                    false,
                    Cpu::spec_rotate_carry_out(kind, v),
                )
                &&& post.sp == pre.sp
                &&& post.state == pre.state
                &&& post.interrupt_master_enable == pre.interrupt_master_enable
                &&& (forall|r2: Register|
                    Cpu::spec_is_r8(r2) && r2 != reg ==> post.spec_r8(r2) == pre.spec_r8(r2))
                &&& postbus == prebus
                &&& r == Option::Some(8u64)
            },
            Operand::Deref(DerefOperand::Register(Register::Hl)) => !prebus.lcd.dma_running
                ==> ({
                let v = prebus.spec_bus_read(pre.hl.spec_u16());
                &&& Cpu::spec_only_pc_flags(pre, post)
                &&& Cpu::spec_flags_set(
                    post,
                    Cpu::spec_rotate_result(kind, v, pre.spec_carry_flag()) == 0,
                    false,
                    false,
                    Cpu::spec_rotate_carry_out(kind, v),
                )
                &&& MemoryBus::spec_write_data_effect(
                    prebus,
                    postbus,
                    pre.hl.spec_u16(),
                    Cpu::spec_rotate_result(kind, v, pre.spec_carry_flag()) as u8,
                )
                &&& r == Option::Some(16u64)
            }),
            _ => r is None,
        }
    }

    /// BIT's effect: Z reports whether the named bit is clear, N=0,
    /// H=1, C untouched.
    pub open spec fn spec_bit_test_effect(
        pre: Cpu,
        prebus: MemoryBus,
        post: Cpu,
        postbus: MemoryBus,
        bit: u8,
        destination: Operand,
        r: Option<u64>,
    ) -> bool {
        if bit >= 8 {
            r is None
        } else {
            match destination {
                Operand::Register(reg) => if !Cpu::spec_is_r8(reg) {
                    r is None
                } else {
                    &&& Cpu::spec_only_pc_flags(pre, post)
                    &&& Cpu::spec_flags_set(
                        post,
                        (pre.spec_r8(reg) / Cpu::spec_bit_mask(bit)) % 2 == 0,
                        false,
                        true,
                        pre.spec_carry_flag(),
                    )
                    &&& postbus == prebus
                    &&& r == Option::Some(8u64)
                },
                Operand::Deref(DerefOperand::Register(Register::Hl)) => !prebus.lcd.dma_running
                    ==> {
                    &&& Cpu::spec_only_pc_flags(pre, post)
                    &&& Cpu::spec_flags_set(
                        post,
                        (prebus.spec_bus_read(pre.hl.spec_u16()) / Cpu::spec_bit_mask(bit)) % 2
                            == 0,
                        false,
                        true,
                        pre.spec_carry_flag(),
                    )
                    &&& MemoryBus::spec_read_frame(prebus, postbus)
                    &&& r == Option::Some(12u64)
                },
                _ => r is None,
            }
        }
    }

    /// RES's and SET's effect on a register target: the named bit
    /// cleared or set, no flags moved. The (HL) forms rewrite the
    /// cell behind HL and leave the registers alone.
    pub open spec fn spec_res_set_effect(
        pre: Cpu,
        prebus: MemoryBus,
        post: Cpu,
        postbus: MemoryBus,
        bit: u8,
        destination: Operand,
        set: bool,
        r: Option<u64>,
    ) -> bool {
        if bit >= 8 {
            r is None
        } else {
            match destination {
                Operand::Register(reg) => if !Cpu::spec_is_r8(reg) {
                    r is None
                } else {
                    let v = pre.spec_r8(reg);
                    let mask = Cpu::spec_bit_mask(bit);
                    let stored: u8 = if set {
                        if (v / mask) % 2 == 1 {
                            v
                        } else {
                            (v + mask) as u8
                        }
                    } else {
                        if (v / mask) % 2 == 1 {
                            (v - mask) as u8
                        } else {
                            v
                        }
                    };
                    &&& Cpu::spec_r8_written(pre, post, reg, stored)
                    &&& postbus == prebus
                    &&& r == Option::Some(8u64)
                },
                Operand::Deref(DerefOperand::Register(Register::Hl)) => {
                    &&& Cpu::spec_only_pc(pre, post)
                    &&& (!prebus.lcd.dma_running ==> ({
                        let v = prebus.spec_bus_read(pre.hl.spec_u16());
                        let mask = Cpu::spec_bit_mask(bit);
                        let stored: u8 = if set {
                            if (v / mask) % 2 == 1 {
                                v
                            } else {
                                (v + mask) as u8
                            }
                        } else {
                            if (v / mask) % 2 == 1 {
                                (v - mask) as u8
                            } else {
                                v
                            }
                        };
                        MemoryBus::spec_write_data_effect(
                            prebus,
                            postbus,
                            pre.hl.spec_u16(),
                            stored,
                        )
                    }))
                    &&& r == Option::Some(16u64)
                },
                _ => r is None,
            }
        }
    }

    /// ADD HL,rr's and ADD SP,e's effect.
    pub open spec fn spec_add16_effect(
        pre: Cpu,
        prebus: MemoryBus,
        post: Cpu,
        postbus: MemoryBus,
        register: Register,
        operand: Operand,
        r: Option<u64>,
    ) -> bool {
        match register {
            Register::Hl => match operand {
                Operand::Register(rr) => if !Cpu::spec_is_r16(rr) {
                    r is None
                } else {
                    let hl = pre.hl.spec_u16() as int;
                    let v = pre.spec_r16(rr) as int;
                    &&& post.hl.spec_u16() == (hl + v) % 0x10000
                    &&& Cpu::spec_flags_set(
                        post,
                        pre.spec_zero_flag(),
                        false,
                        hl % 0x1000 + v % 0x1000 > 0xfff,
                        hl + v > 0xffff,
                    )
                    &&& post.bc == pre.bc
                    &&& post.de == pre.de
                    &&& post.sp == pre.sp
                    &&& post.state == pre.state
                    &&& post.interrupt_master_enable == pre.interrupt_master_enable
                    &&& post.af.high == pre.af.high
                    &&& postbus == prebus
                    &&& r == Option::Some(8u64)
                },
                _ => r is None,
            },
            Register::Sp => match operand {
                Operand::I8(d) => {
                    &&& post.sp == (pre.sp + d) % 0x10000
                    &&& Cpu::spec_flags_set(
                        post,
                        false,
                        false,
                        pre.sp % 16 + crate::instruction::spec_u8_of_i8(d) % 16 > 15,
                        pre.sp % 256 + crate::instruction::spec_u8_of_i8(d) > 255,
                    )
                    &&& post.bc == pre.bc
                    &&& post.de == pre.de
                    &&& post.hl == pre.hl
                    &&& post.state == pre.state
                    &&& post.interrupt_master_enable == pre.interrupt_master_enable
                    &&& post.af.high == pre.af.high
                    &&& postbus == prebus
                    &&& r == Option::Some(16u64)
                },
                _ => r is None,
            },
            _ => r is None,
        }
    }

    /// What one executed instruction does, variant by variant: the
    /// register file, the flags, the bus and the cycle count, stated
    /// against the pre-state. The read-modify-write forms on (HL)
    /// state their flags and leave the rewritten cell to the bus
    /// contracts.
    pub open spec fn spec_execute_effect(
        pre: Cpu,
        prebus: MemoryBus,
        post: Cpu,
        postbus: MemoryBus,
        op: Opcode,
        r: Option<u64>,
    ) -> bool {
        match op {
            Opcode::Unknown { .. } => r is None,
            Opcode::Nop => Cpu::spec_only_pc(pre, post) && postbus == prebus && r == Option::Some(
                4u64,
            ),
            Opcode::Stop => post == (Cpu { pc: post.pc, state: CpuState::Stopped, ..pre })
                && postbus == prebus && r == Option::Some(4u64),
            Opcode::Halt => post == (Cpu { pc: post.pc, state: CpuState::Halted, ..pre })
                && postbus == prebus && r == Option::Some(4u64),
            Opcode::Di => post == (Cpu {
                pc: post.pc,
                interrupt_master_enable: false,
                ..pre
            }) && postbus == prebus && r == Option::Some(4u64),
            Opcode::Ei => post == (Cpu {
                pc: post.pc,
                interrupt_master_enable: true,
                ..pre
            }) && postbus == prebus && r == Option::Some(4u64),
            Opcode::Ld8 { destination, source } => Cpu::spec_ld8_effect(
                pre,
                prebus,
                post,
                postbus,
                destination,
                source,
                r,
            ),
            Opcode::Ld16 { destination, source } => Cpu::spec_ld16_effect(
                pre,
                prebus,
                post,
                postbus,
                destination,
                source,
                r,
            ),
            Opcode::Jp { destination } => match destination {
                Operand::U16(address) => post == (Cpu { pc: address, ..pre }) && postbus == prebus
                    && r == Option::Some(16u64),
                Operand::Register(Register::Hl) => post == (Cpu { pc: pre.hl.spec_u16(), ..pre })
                    && postbus == prebus && r == Option::Some(4u64),
                _ => r is None,
            },
            Opcode::JpCond { condition, destination } => {
                &&& post == (Cpu { pc: post.pc, ..pre })
                &&& postbus == prebus
                &&& (Cpu::spec_condition(pre, condition) ==> post.pc == destination && r
                    == Option::Some(16u64))
                &&& (!Cpu::spec_condition(pre, condition) ==> post.pc == (pre.pc + 3) % 0x10000
                    && r == Option::Some(12u64))
            },
            Opcode::Jr { offset } => {
                &&& post == (Cpu { pc: post.pc, ..pre })
                &&& post.pc == ((pre.pc + 2) % 0x10000 + offset) % 0x10000
                &&& postbus == prebus
                &&& r == Option::Some(12u64)
            },
            Opcode::JrCond { condition, offset } => {
                &&& post == (Cpu { pc: post.pc, ..pre })
                &&& postbus == prebus
                &&& (Cpu::spec_condition(pre, condition) ==> post.pc == ((pre.pc + 2) % 0x10000
                    + offset) % 0x10000 && r == Option::Some(12u64))
                &&& (!Cpu::spec_condition(pre, condition) ==> post.pc == (pre.pc + 2) % 0x10000
                    && r == Option::Some(8u64))
            },
            Opcode::Call { destination } => Cpu::spec_call_effect(
                pre,
                prebus,
                post,
                postbus,
                destination,
                ((pre.pc + 3) % 0x10000) as u16,
            ) && r == Option::Some(24u64),
            Opcode::CallCond { condition, destination } => {
                &&& (Cpu::spec_condition(pre, condition) ==> Cpu::spec_call_effect(
                    pre,
                    prebus,
                    post,
                    postbus,
                    destination,
                    ((pre.pc + 3) % 0x10000) as u16,
                ) && r == Option::Some(24u64))
                &&& (!Cpu::spec_condition(pre, condition) ==> post == (Cpu {
                    pc: post.pc,
                    ..pre
                }) && post.pc == (pre.pc + 3) % 0x10000 && postbus == prebus && r == Option::Some(
                    12u64,
                ))
            },
            Opcode::Ret => Cpu::spec_ret_effect(pre, prebus, post, postbus) && r == Option::Some(
                16u64,
            ),
            Opcode::RetCond { condition } => {
                &&& (Cpu::spec_condition(pre, condition) ==> Cpu::spec_ret_effect(
                    pre,
                    prebus,
                    post,
                    postbus,
                ) && r == Option::Some(20u64))
                &&& (!Cpu::spec_condition(pre, condition) ==> post == (Cpu {
                    pc: post.pc,
                    ..pre
                }) && post.pc == (pre.pc + 1) % 0x10000 && postbus == prebus && r == Option::Some(
                    8u64,
                ))
            },
            Opcode::Reti => {
                &&& post == (Cpu {
                    pc: post.pc,
                    sp: post.sp,
                    interrupt_master_enable: true,
                    ..pre
                })
                &&& post.sp == (pre.sp + 2) % 0x10000
                &&& (!prebus.lcd.dma_running ==> post.pc == prebus.spec_bus_read(pre.sp) + 256
                    * prebus.spec_bus_read(crate::memory_bus::spec_wrap_addr(pre.sp, 1))
                    && MemoryBus::spec_read_frame(prebus, postbus))
                &&& r == Option::Some(16u64)
            },
            Opcode::Pop { register } => Cpu::spec_pop_effect(
                pre,
                prebus,
                post,
                postbus,
                register,
                r,
            ),
            Opcode::Push { register } => Cpu::spec_push_op_effect(
                pre,
                prebus,
                post,
                postbus,
                register,
                r,
            ),
            Opcode::Rst { vector } => Cpu::spec_call_effect(
                pre,
                prebus,
                post,
                postbus,
                vector as u16,
                ((pre.pc + 1) % 0x10000) as u16,
            ) && r == Option::Some(16u64),
            Opcode::Bit { bit, destination } => Cpu::spec_bit_test_effect(
                pre,
                prebus,
                post,
                postbus,
                bit,
                destination,
                r,
            ),
            Opcode::Res { bit, destination } => Cpu::spec_res_set_effect(
                pre,
                prebus,
                post,
                postbus,
                bit,
                destination,
                false,
                r,
            ),
            Opcode::SetBit { bit, destination } => Cpu::spec_res_set_effect(
                pre,
                prebus,
                post,
                postbus,
                bit,
                destination,
                true,
                r,
            ),
            Opcode::Add8 { operand } => Cpu::spec_alu8_effect(
                pre,
                prebus,
                post,
                postbus,
                operand,
                false,
                false,
                r,
            ),
            Opcode::Adc { operand } => Cpu::spec_alu8_effect(
                pre,
                prebus,
                post,
                postbus,
                operand,
                true,
                false,
                r,
            ),
            Opcode::Sub { operand } => Cpu::spec_alu8_effect(
                pre,
                prebus,
                post,
                postbus,
                operand,
                false,
                true,
                r,
            ),
            Opcode::Sbc { operand } => Cpu::spec_alu8_effect(
                pre,
                prebus,
                post,
                postbus,
                operand,
                true,
                true,
                r,
            ),
            Opcode::And { operand } => Cpu::spec_logic8_effect(
                pre,
                prebus,
                post,
                postbus,
                operand,
                0,
                r,
            ),
            Opcode::Xor { operand } => Cpu::spec_logic8_effect(
                pre,
                prebus,
                post,
                postbus,
                operand,
                1,
                r,
            ),
            Opcode::Or { operand } => Cpu::spec_logic8_effect(
                pre,
                prebus,
                post,
                postbus,
                operand,
                2,
                r,
            ),
            Opcode::Cp { operand } => Cpu::spec_logic8_effect(
                pre,
                prebus,
                post,
                postbus,
                operand,
                3,
                r,
            ),
            Opcode::Add16 { register, operand } => Cpu::spec_add16_effect(
                pre,
                prebus,
                post,
                postbus,
                register,
                operand,
                r,
            ),
            Opcode::Inc { operand } => Cpu::spec_incdec8_effect(
                pre,
                prebus,
                post,
                postbus,
                operand,
                false,
                r,
            ),
            Opcode::Dec { operand } => Cpu::spec_incdec8_effect(
                pre,
                prebus,
                post,
                postbus,
                operand,
                true,
                r,
            ),
            Opcode::Inc16 { register } => if !Cpu::spec_is_r16(register) {
                r is None
            } else {
                &&& post.spec_r16(register) == (pre.spec_r16(register) + 1) % 0x10000
                &&& post.af == pre.af
                &&& post.state == pre.state
                &&& post.interrupt_master_enable == pre.interrupt_master_enable
                &&& (forall|r2: Register|
                    Cpu::spec_is_r16(r2) && r2 != register ==> post.spec_r16(r2) == pre.spec_r16(
                        r2,
                    ))
                &&& postbus == prebus
                &&& r == Option::Some(8u64)
            },
            Opcode::Dec16 { register } => if !Cpu::spec_is_r16(register) {
                r is None
            } else {
                &&& post.spec_r16(register) == (pre.spec_r16(register) + 0xffff) % 0x10000
                &&& post.af == pre.af
                &&& post.state == pre.state
                &&& post.interrupt_master_enable == pre.interrupt_master_enable
                &&& (forall|r2: Register|
                    Cpu::spec_is_r16(r2) && r2 != register ==> post.spec_r16(r2) == pre.spec_r16(
                        r2,
                    ))
                &&& postbus == prebus
                &&& r == Option::Some(8u64)
            },
            Opcode::Cpl => {
                &&& post.af.high == !pre.af.high
                &&& Cpu::spec_flags_set(
                    post,
                    pre.spec_zero_flag(),
                    true,
                    true,
                    pre.spec_carry_flag(),
                )
                &&& Cpu::spec_only_pc_a_flags(pre, post)
                &&& postbus == prebus
                &&& r == Option::Some(4u64)
            },
            Opcode::Daa => Cpu::spec_daa_result(pre, post) && Cpu::spec_only_pc_a_flags(pre, post)
                && postbus == prebus && r == Option::Some(4u64),
            Opcode::Rlca => Cpu::spec_a_rotate_effect(pre, post, 0) && postbus == prebus && r
                == Option::Some(4u64),
            Opcode::Rla => Cpu::spec_a_rotate_effect(pre, post, 2) && postbus == prebus && r
                == Option::Some(4u64),
            Opcode::Rrca => Cpu::spec_a_rotate_effect(pre, post, 1) && postbus == prebus && r
                == Option::Some(4u64),
            Opcode::Rra => Cpu::spec_a_rotate_effect(pre, post, 3) && postbus == prebus && r
                == Option::Some(4u64),
            Opcode::Rlc { operand } => Cpu::spec_rotate_op_effect(
                pre,
                prebus,
                post,
                postbus,
                0,
                operand,
                r,
            ),
            Opcode::Rrc { operand } => Cpu::spec_rotate_op_effect(
                pre,
                prebus,
                post,
                postbus,
                1,
                operand,
                r,
            ),
            Opcode::Rl { operand } => Cpu::spec_rotate_op_effect(
                pre,
                prebus,
                post,
                postbus,
                2,
                operand,
                r,
            ),
            Opcode::Rr { operand } => Cpu::spec_rotate_op_effect(
                pre,
                prebus,
                post,
                postbus,
                3,
                operand,
                r,
            ),
            Opcode::Sla { operand } => Cpu::spec_rotate_op_effect(
                pre,
                prebus,
                post,
                postbus,
                4,
                operand,
                r,
            ),
            Opcode::Sra { operand } => Cpu::spec_rotate_op_effect(
                pre,
                prebus,
                post,
                postbus,
                5,
                operand,
                r,
            ),
            Opcode::Swap { operand } => Cpu::spec_rotate_op_effect(
                pre,
                prebus,
                post,
                postbus,
                6,
                operand,
                r,
            ),
            Opcode::Srl { operand } => Cpu::spec_rotate_op_effect(
                pre,
                prebus,
                post,
                postbus,
                7,
                operand,
                r,
            ),
            Opcode::Scf => {
                &&& Cpu::spec_flags_set(post, pre.spec_zero_flag(), false, false, true)
                &&& Cpu::spec_only_pc_flags(pre, post)
                &&& postbus == prebus
                &&& r == Option::Some(4u64)
            },
            Opcode::Ccf => {
                &&& Cpu::spec_flags_set(
                    post,
                    pre.spec_zero_flag(),
                    false,
                    false,
                    !pre.spec_carry_flag(),
                )
                &&& Cpu::spec_only_pc_flags(pre, post)
                &&& postbus == prebus
                &&& r == Option::Some(4u64)
            },
        }
    }

    /// The accumulator-only rotates: A rotated by kind, Z always
    /// cleared, N and H cleared, C the leaving bit.
    pub open spec fn spec_a_rotate_effect(pre: Cpu, post: Cpu, kind: u8) -> bool {
        &&& post.af.high == Cpu::spec_rotate_result(kind, pre.af.high, pre.spec_carry_flag())
        &&& Cpu::spec_flags_set(
            post,
            false,
            false,
            false,
            Cpu::spec_rotate_carry_out(kind, pre.af.high),
        )
        &&& Cpu::spec_only_pc_a_flags(pre, post)
    }

    /// One CPU step: a halted or stopped CPU burns one cycle (waking
    /// when an enabled interrupt is pending); a pending enabled
    /// interrupt is serviced for 20 cycles when IME is set; otherwise
    /// the instruction at PC is fetched, decoded and executed. `None`
    /// reports a fatal illegal opcode.
    #[verifier::rlimit(100)]
    #[verifier::spinoff_prover]
    pub fn single_step(&mut self, memory_bus: &mut MemoryBus) -> (r: Option<u64>)
        requires
            old(self).wf(),
            old(memory_bus).wf(),
        ensures
            final(self).wf(),
            final(memory_bus).wf(),
            r matches Option::Some(cycles) ==> 1 <= cycles <= 24,
            !(old(self).state matches CpuState::Running) && !old(memory_bus).lcd.dma_running && (
            old(memory_bus).spec_bus_read(0xff0f) & old(memory_bus).spec_bus_read(0xffff) & 0x1f)
                == 0 ==> r == Option::Some(1u64) && *final(self) == *old(self)
                && MemoryBus::spec_read_frame(*old(memory_bus), *final(memory_bus)),
            !old(memory_bus).lcd.dma_running ==> ({
                let iflags = old(memory_bus).spec_bus_read(0xff0f);
                let masked = iflags & old(memory_bus).spec_bus_read(0xffff) & 0x1f;
                let serviceable = old(self).state matches CpuState::Running || (old(self).state matches CpuState::Halted && masked != 0);
                serviceable && old(self).interrupt_master_enable && masked != 0 ==> ({
                    let bit = Cpu::spec_lowest_set_bit(masked);
                    let mask = Cpu::spec_bit_mask(bit);
                    let cleared: u8 = if (iflags / mask) % 2 == 1 {
                        (iflags - mask) as u8
                    } else {
                        iflags
                    };
                    &&& r == Option::Some(20u64)
                    &&& final(self).pc == 0x40 + 8 * bit
                    &&& final(self).interrupt_master_enable == false
                    &&& final(self).state matches CpuState::Running
                    &&& final(self).sp == (old(self).sp as int - 2) % 0x10000
                    &&& final(self).af == old(self).af
                    &&& final(self).bc == old(self).bc
                    &&& final(self).de == old(self).de
                    &&& final(self).hl == old(self).hl
                    &&& (0xc002 <= old(self).sp <= 0xe000 ==> final(memory_bus).ram@ == old(memory_bus).ram@.update(old(self).sp - 2 - 0xc000, (old(self).pc % 256) as u8).update(
                        old(self).sp - 1 - 0xc000,
                        (old(self).pc / 256) as u8,
                    ) && final(memory_bus).interrupt_flags == cleared && final(memory_bus).high_ram@ == old(memory_bus).high_ram@)
                    &&& (0xff82 <= old(self).sp <= 0xffff ==> final(memory_bus).high_ram@ == old(memory_bus).high_ram@.update(old(self).sp - 2 - 0xff80, (old(self).pc % 256) as u8).update(
                        old(self).sp - 1 - 0xff80,
                        (old(self).pc / 256) as u8,
                    ) && final(memory_bus).interrupt_flags == cleared && final(memory_bus).ram@
                        == old(memory_bus).ram@)
                })
            }),
            !old(memory_bus).lcd.dma_running ==> ({
                let masked = old(memory_bus).spec_bus_read(0xff0f) & old(
                    memory_bus,
                ).spec_bus_read(0xffff) & 0x1f;
                let runs = old(self).state matches CpuState::Running || (old(self).state
                    matches CpuState::Halted && masked != 0) || (old(self).state
                    matches CpuState::Stopped && (masked / 16) % 2 == 1);
                runs && !(old(self).interrupt_master_enable && masked != 0)
                    ==> Cpu::spec_execute_effect(
                    (Cpu { state: CpuState::Running, ..*old(self) }),
                    (MemoryBus {
                        last_bus_value: final(memory_bus).last_bus_value,
                        break_reason: final(memory_bus).break_reason,
                        ..*old(memory_bus)
                    }),
                    *final(self),
                    *final(memory_bus),
                    spec_decode(
                        old(memory_bus).spec_bus_read(old(self).pc),
                        old(memory_bus).spec_bus_read(
                            crate::memory_bus::spec_wrap_addr(old(self).pc, 1),
                        ),
                        old(memory_bus).spec_bus_read(
                            crate::memory_bus::spec_wrap_addr(old(self).pc, 2),
                        ),
                    ),
                    r,
                )
            }),
    {
        let interrupt_flags = memory_bus.read_u8(INTERRUPT_FLAGS_REGISTER_ADDRESS);
        let interrupt_enable = memory_bus.read_u8(INTERRUPT_ENABLE_REGISTER_ADDRESS);
        let masked = interrupt_flags & interrupt_enable & 0x1f;
        match self.state {
            CpuState::Halted => {
                if masked != 0 {
                    self.state = CpuState::Running;
                } else {
                    return Option::Some(1);
                }
            },
            CpuState::Stopped => {
                let joypad_pending = Cpu::test_bit(4, masked);
                if joypad_pending {
                    self.state = CpuState::Running;
                } else {
                    return Option::Some(1);
                }
            },
            CpuState::Running => {},
        }
        if self.interrupt_master_enable && masked != 0 {
            let bit = Cpu::lowest_set_bit(masked);
            let cleared = Cpu::reset_bit(bit, interrupt_flags);
            memory_bus.write_u8(INTERRUPT_FLAGS_REGISTER_ADDRESS, cleared);
            self.interrupt_master_enable = false;
            let handler: u16 = 0x40 + 8 * bit as u16;
            self.call(memory_bus, handler);
            return Option::Some(20);
        }
        let ghost pre_fetch = *memory_bus;
        let stepped = self.fetch_and_execute(memory_bus);
        proof {
            if !old(memory_bus).lcd.dma_running {
                assert(pre_fetch == (MemoryBus {
                    last_bus_value: pre_fetch.last_bus_value,
                    break_reason: pre_fetch.break_reason,
                    ..*old(memory_bus)
                }));
                assert(pre_fetch.spec_bus_read(old(self).pc) == old(memory_bus).spec_bus_read(
                    old(self).pc,
                ));
                assert(pre_fetch.spec_bus_read(crate::memory_bus::spec_wrap_addr(old(self).pc, 1))
                    == old(memory_bus).spec_bus_read(
                    crate::memory_bus::spec_wrap_addr(old(self).pc, 1),
                ));
                assert(pre_fetch.spec_bus_read(crate::memory_bus::spec_wrap_addr(old(self).pc, 2))
                    == old(memory_bus).spec_bus_read(
                    crate::memory_bus::spec_wrap_addr(old(self).pc, 2),
                ));
            }
        }
        stepped
    }

    /// An executed instruction's stated effect does not depend on the
    /// observed pre-bus's open-bus latch or breakpoint scratch: it
    /// carries over from a latch-shifted sibling of `base` to the
    /// sibling holding the post-bus's own latch fields.
    #[verifier::rlimit(100)]
    #[verifier::spinoff_prover]
    proof fn lemma_execute_effect_latch_shift(
        pre: Cpu,
        base: MemoryBus,
        mid: MemoryBus,
        post: Cpu,
        postbus: MemoryBus,
        op: Opcode,
        r: Option<u64>,
    )
        requires
            mid == (MemoryBus {
                last_bus_value: mid.last_bus_value,
                break_reason: mid.break_reason,
                ..base
            }),
            Cpu::spec_execute_effect(pre, mid, post, postbus, op, r),
        ensures
            Cpu::spec_execute_effect(
                pre,
                (MemoryBus {
                    last_bus_value: postbus.last_bus_value,
                    break_reason: postbus.break_reason,
                    ..base
                }),
                post,
                postbus,
                op,
                r,
            ),
    {
        MemoryBus::lemma_write_effect_latch_shift(base, mid, postbus);
        match op {
        Opcode::Nop => {},
        Opcode::Stop => {},
        Opcode::Halt => {},
        Opcode::Di => {},
        Opcode::Ei => {},
        Opcode::Ret => {},
        Opcode::Reti => {},
        Opcode::Cpl => {},
        Opcode::Daa => {},
        Opcode::Rlca => {},
        Opcode::Rla => {},
        Opcode::Rrca => {},
        Opcode::Rra => {},
        Opcode::Scf => {},
        Opcode::Ccf => {},
        Opcode::Unknown { .. } => {},
        Opcode::Jp { .. } => {},
        Opcode::JpCond { .. } => {},
        Opcode::Jr { .. } => {},
        Opcode::JrCond { .. } => {},
        Opcode::Call { .. } => {},
        Opcode::CallCond { .. } => {},
        Opcode::RetCond { .. } => {},
        Opcode::Pop { .. } => {},
        Opcode::Push { .. } => {},
        Opcode::Rst { .. } => {},
        Opcode::Inc16 { .. } => {},
        Opcode::Dec16 { .. } => {},
        Opcode::Add16 { .. } => {},
        Opcode::Add8 { .. } => {},
        Opcode::Adc { .. } => {},
        Opcode::Sub { .. } => {},
        Opcode::Sbc { .. } => {},
        Opcode::And { .. } => {},
        Opcode::Xor { .. } => {},
        Opcode::Or { .. } => {},
        Opcode::Cp { .. } => {},
        Opcode::Inc { .. } => {},
        Opcode::Dec { .. } => {},
        Opcode::Bit { .. } => {},
        Opcode::Res { .. } => {},
        Opcode::SetBit { .. } => {},
        Opcode::Rlc { .. } => {},
        Opcode::Rrc { .. } => {},
        Opcode::Rl { .. } => {},
        Opcode::Rr { .. } => {},
        Opcode::Sla { .. } => {},
        Opcode::Sra { .. } => {},
        Opcode::Swap { .. } => {},
        Opcode::Srl { .. } => {},
        Opcode::Ld8 { destination, source } => {
            match destination {
                Operand::Register(..) => {},
                Operand::Deref(..) => {},
                _ => {},
            }
        },
        Opcode::Ld16 { .. } => {},
        }
    }

    /// Fetches the three bytes at PC, decodes them, and executes the
    /// instruction; the whole effect is the executed opcode's, stated
    /// against the entry state (the fetch itself only moves the
    /// open-bus latch and the breakpoint scratch).
    #[verifier::rlimit(100)]
    #[verifier::spinoff_prover]
    fn fetch_and_execute(&mut self, memory_bus: &mut MemoryBus) -> (r: Option<u64>)
        requires
            old(self).wf(),
            old(memory_bus).wf(),
        ensures
            final(self).wf(),
            final(memory_bus).wf(),
            r matches Option::Some(cycles) ==> 4 <= cycles <= 24,
            !old(memory_bus).lcd.dma_running ==> Cpu::spec_execute_effect(
                *old(self),
                (MemoryBus {
                    last_bus_value: final(memory_bus).last_bus_value,
                    break_reason: final(memory_bus).break_reason,
                    ..*old(memory_bus)
                }),
                *final(self),
                *final(memory_bus),
                spec_decode(
                    old(memory_bus).spec_bus_read(old(self).pc),
                    old(memory_bus).spec_bus_read(
                        crate::memory_bus::spec_wrap_addr(old(self).pc, 1),
                    ),
                    old(memory_bus).spec_bus_read(
                        crate::memory_bus::spec_wrap_addr(old(self).pc, 2),
                    ),
                ),
                r,
            ),
    {
        let insn_bytes = memory_bus.read_mem(self.pc, 3);
        let ghost mid_bus = *memory_bus;
        let insn = Instruction::new(self.pc, insn_bytes[0], insn_bytes[1], insn_bytes[2]);
        proof {
            if !old(memory_bus).lcd.dma_running {
                assert(insn_bytes@[0] == old(memory_bus).spec_bus_read(
                    crate::memory_bus::spec_wrap_addr(old(self).pc, 0),
                ));
                assert(crate::memory_bus::spec_wrap_addr(old(self).pc, 0) == old(self).pc);
            }
        }
        let result = self.execute_instruction(memory_bus, insn);
        proof {
            if !old(memory_bus).lcd.dma_running {
                Cpu::lemma_execute_effect_latch_shift(
                    *old(self),
                    *old(memory_bus),
                    mid_bus,
                    *self,
                    *memory_bus,
                    insn.op,
                    result,
                );
            }
        }
        result
    }

    /// Executes one decoded instruction: advances PC past it, applies
    /// its semantics against the register file and the bus, and
    /// returns its cycle count. `None` for the illegal opcodes and
    /// for operand combinations no instruction carries.
    #[verifier::rlimit(100)]
    #[verifier::spinoff_prover]
    pub fn execute_instruction(&mut self, memory_bus: &mut MemoryBus, insn: Instruction) -> (r:
        Option<u64>)
        requires
            old(self).wf(),
            old(memory_bus).wf(),
        ensures
            final(self).wf(),
            final(memory_bus).wf(),
            insn.op matches Opcode::Unknown { .. } ==> r is None,
            r matches Option::Some(cycles) ==> 4 <= cycles <= 24,
            r is Some ==> final(self).pc == (if insn.op matches Opcode::Jp { .. }
                || insn.op matches Opcode::JpCond { .. } || insn.op matches Opcode::Jr { .. }
                || insn.op matches Opcode::JrCond { .. } || insn.op matches Opcode::Call { .. }
                || insn.op matches Opcode::CallCond { .. } || insn.op matches Opcode::Ret
                || insn.op matches Opcode::RetCond { .. } || insn.op matches Opcode::Reti
                || insn.op matches Opcode::Rst { .. } {
                final(self).pc
            } else {
                ((old(self).pc + spec_size(insn.op)) % 0x10000) as u16
            }),
            Cpu::spec_execute_effect(
                *old(self),
                *old(memory_bus),
                *final(self),
                *final(memory_bus),
                insn.op,
                r,
            ),
    {
        let orig_pc = self.pc;
        let size = insn.size();
        self.pc = ((self.pc as u32 + size as u32) % 0x10000) as u16;
        proof {
            assert(self.pc == ((old(self).pc + spec_size(insn.op)) % 0x10000) as u16);
        }

        match insn.op {
            Opcode::Unknown { .. } => Option::None,
            Opcode::Nop => Option::Some(4),
            Opcode::Ld8 { destination, source } => self.execute_ld8(
                memory_bus,
                destination,
                source,
            ),
            Opcode::Ld16 { destination, source } => self.execute_ld16(
                memory_bus,
                destination,
                source,
            ),
            Opcode::Jp { .. }
            | Opcode::JpCond { .. }
            | Opcode::Jr { .. }
            | Opcode::JrCond { .. }
            | Opcode::Call { .. }
            | Opcode::CallCond { .. }
            | Opcode::Ret
            | Opcode::RetCond { .. }
            | Opcode::Reti
            | Opcode::Rst { .. } => self.execute_control_op(memory_bus, insn.op, orig_pc),
            Opcode::Pop { .. } | Opcode::Push { .. } => self.execute_stack_op(
                memory_bus,
                insn.op,
            ),
            Opcode::Bit { bit, destination } => self.execute_bit_test(
                memory_bus,
                bit,
                destination,
            ),
            Opcode::Res { bit, destination } => self.execute_res(
                memory_bus,
                bit,
                destination,
            ),
            Opcode::SetBit { bit, destination } => self.execute_set(
                memory_bus,
                bit,
                destination,
            ),
            Opcode::Add8 { .. }
            | Opcode::Adc { .. }
            | Opcode::Sub { .. }
            | Opcode::Sbc { .. }
            | Opcode::And { .. }
            | Opcode::Xor { .. }
            | Opcode::Or { .. }
            | Opcode::Cp { .. } => self.execute_alu_op(memory_bus, insn.op),
            Opcode::Add16 { register, operand } => self.execute_add16(
                memory_bus,
                register,
                operand,
            ),
            Opcode::Inc { operand } => self.execute_inc8(memory_bus, operand),
            Opcode::Dec { operand } => self.execute_dec8(memory_bus, operand),
            Opcode::Rlc { operand } => self.rotate_shift_op(memory_bus, operand, 0),
            Opcode::Rrc { operand } => self.rotate_shift_op(memory_bus, operand, 1),
            Opcode::Rl { operand } => self.rotate_shift_op(memory_bus, operand, 2),
            Opcode::Rr { operand } => self.rotate_shift_op(memory_bus, operand, 3),
            Opcode::Sla { operand } => self.rotate_shift_op(memory_bus, operand, 4),
            Opcode::Sra { operand } => self.rotate_shift_op(memory_bus, operand, 5),
            Opcode::Swap { operand } => self.rotate_shift_op(memory_bus, operand, 6),
            Opcode::Srl { operand } => self.rotate_shift_op(memory_bus, operand, 7),
            _ => self.execute_misc_op(memory_bus, insn.op, orig_pc),
        }
    }
    /// The byte-load family: register-to-register moves, immediate
    /// loads, and every dereferencing form the decoder produces.
    #[verifier::rlimit(100)]
    #[verifier::spinoff_prover]
    fn execute_ld8(
        &mut self,
        memory_bus: &mut MemoryBus,
        destination: Operand,
        source: Operand,
    ) -> (r: Option<u64>)
        requires
            old(self).wf(),
            old(memory_bus).wf(),
        ensures
            final(self).wf(),
            final(memory_bus).wf(),
            r matches Option::Some(cycles) ==> 4 <= cycles <= 16,
            final(self).pc == old(self).pc,
            Cpu::spec_execute_effect(
                *old(self),
                *old(memory_bus),
                *final(self),
                *final(memory_bus),
                Opcode::Ld8 { destination, source },
                r,
            ),

    {
        match destination {
            Operand::Register(r_dest) => {
                if !matches!(
                    r_dest,
                    Register::A
                        | Register::B
                        | Register::C
                        | Register::D
                        | Register::E
                        | Register::H
                        | Register::L
                ) {
                    return Option::None;
                }
                match source {
                    Operand::Register(r_src) => {
                        if !matches!(
                            r_src,
                            Register::A
                                | Register::B
                                | Register::C
                                | Register::D
                                | Register::E
                                | Register::H
                                | Register::L
                        ) {
                            return Option::None;
                        }
                        let v = self.get_r8(&r_src);
                        self.set_r8(&r_dest, v);
                        Option::Some(4)
                    },
                    Operand::U8(v) => {
                        self.set_r8(&r_dest, v);
                        Option::Some(8)
                    },
                    Operand::Deref(d) => {
                        match d {
                            DerefOperand::Register(Register::Hl) => {
                                let v = memory_bus.read_u8(self.hl.get_u16());
                                self.set_r8(&r_dest, v);
                                Option::Some(8)
                            },
                            DerefOperand::Register(Register::Bc) => {
                                if !matches!(r_dest, Register::A) {
                                    return Option::None;
                                }
                                let v = memory_bus.read_u8(self.bc.get_u16());
                                self.set_a(v);
                                Option::Some(8)
                            },
                            DerefOperand::Register(Register::De) => {
                                if !matches!(r_dest, Register::A) {
                                    return Option::None;
                                }
                                let v = memory_bus.read_u8(self.de.get_u16());
                                self.set_a(v);
                                Option::Some(8)
                            },
                            DerefOperand::Register(Register::HlPlus) => {
                                if !matches!(r_dest, Register::A) {
                                    return Option::None;
                                }
                                let hl = self.hl.get_u16();
                                let v = memory_bus.read_u8(hl);
                                self.hl.set_u16(((hl as u32 + 1) % 0x10000) as u16);
                                self.set_a(v);
                                Option::Some(8)
                            },
                            DerefOperand::Register(Register::HlMinus) => {
                                if !matches!(r_dest, Register::A) {
                                    return Option::None;
                                }
                                let hl = self.hl.get_u16();
                                let v = memory_bus.read_u8(hl);
                                self.hl.set_u16(((hl as u32 + 0xffff) % 0x10000) as u16);
                                self.set_a(v);
                                Option::Some(8)
                            },
                            DerefOperand::Address(addr) => {
                                if !matches!(r_dest, Register::A) {
                                    return Option::None;
                                }
                                let v = memory_bus.read_u8(addr);
                                self.set_a(v);
                                Option::Some(16)
                            },
                            DerefOperand::Ff00Offset(offset) => {
                                if !matches!(r_dest, Register::A) {
                                    return Option::None;
                                }
                                let v = memory_bus.read_u8(0xff00 + offset as u16);
                                self.set_a(v);
                                Option::Some(12)
                            },
                            DerefOperand::Ff00PlusC => {
                                if !matches!(r_dest, Register::A) {
                                    return Option::None;
                                }
                                let v = memory_bus.read_u8(0xff00 + self.bc.get_low() as u16);
                                self.set_a(v);
                                Option::Some(8)
                            },
                            _ => Option::None,
                        }
                    },
                    _ => Option::None,
                }
            },
            Operand::Deref(d) => {
                match d {
                    DerefOperand::Register(Register::Hl) => {
                        match source {
                            Operand::Register(r_src) => {
                                if !matches!(
                                    r_src,
                                    Register::A
                                        | Register::B
                                        | Register::C
                                        | Register::D
                                        | Register::E
                                        | Register::H
                                        | Register::L
                                ) {
                                    return Option::None;
                                }
                                let v = self.get_r8(&r_src);
                                memory_bus.write_u8(self.hl.get_u16(), v);
                                Option::Some(8)
                            },
                            Operand::U8(v) => {
                                memory_bus.write_u8(self.hl.get_u16(), v);
                                Option::Some(12)
                            },
                            _ => Option::None,
                        }
                    },
                    DerefOperand::Register(Register::Bc) => {
                        if !matches!(source, Operand::Register(Register::A)) {
                            return Option::None;
                        }
                        let v = self.get_a();
                        memory_bus.write_u8(self.bc.get_u16(), v);
                        Option::Some(8)
                    },
                    DerefOperand::Register(Register::De) => {
                        if !matches!(source, Operand::Register(Register::A)) {
                            return Option::None;
                        }
                        let v = self.get_a();
                        memory_bus.write_u8(self.de.get_u16(), v);
                        Option::Some(8)
                    },
                    DerefOperand::Register(Register::HlPlus) => {
                        if !matches!(source, Operand::Register(Register::A)) {
                            return Option::None;
                        }
                        let v = self.get_a();
                        let hl = self.hl.get_u16();
                        memory_bus.write_u8(hl, v);
                        self.hl.set_u16(((hl as u32 + 1) % 0x10000) as u16);
                        Option::Some(8)
                    },
                    DerefOperand::Register(Register::HlMinus) => {
                        if !matches!(source, Operand::Register(Register::A)) {
                            return Option::None;
                        }
                        let v = self.get_a();
                        let hl = self.hl.get_u16();
                        memory_bus.write_u8(hl, v);
                        self.hl.set_u16(((hl as u32 + 0xffff) % 0x10000) as u16);
                        Option::Some(8)
                    },
                    DerefOperand::Address(addr) => {
                        if !matches!(source, Operand::Register(Register::A)) {
                            return Option::None;
                        }
                        let v = self.get_a();
                        memory_bus.write_u8(addr, v);
                        Option::Some(16)
                    },
                    DerefOperand::Ff00Offset(offset) => {
                        if !matches!(source, Operand::Register(Register::A)) {
                            return Option::None;
                        }
                        let v = self.get_a();
                        memory_bus.write_u8(0xff00 + offset as u16, v);
                        Option::Some(12)
                    },
                    DerefOperand::Ff00PlusC => {
                        if !matches!(source, Operand::Register(Register::A)) {
                            return Option::None;
                        }
                        let v = self.get_a();
                        memory_bus.write_u8(0xff00 + self.bc.get_low() as u16, v);
                        Option::Some(8)
                    },
                    _ => Option::None,
                }
            },
            _ => Option::None,
        }
    }

    /// The word-load family.
    #[verifier::rlimit(100)]
    #[verifier::spinoff_prover]
    fn execute_ld16(
        &mut self,
        memory_bus: &mut MemoryBus,
        destination: Operand,
        source: Operand,
    ) -> (r: Option<u64>)
        requires
            old(self).wf(),
            old(memory_bus).wf(),
        ensures
            final(self).wf(),
            final(memory_bus).wf(),
            r matches Option::Some(cycles) ==> 8 <= cycles <= 20,
            final(self).pc == old(self).pc,
            Cpu::spec_execute_effect(
                *old(self),
                *old(memory_bus),
                *final(self),
                *final(memory_bus),
                Opcode::Ld16 { destination, source },
                r,
            ),
    {
            match destination {
                Operand::Register(r_dest) => {
                    if !matches!(
                        r_dest,
                        Register::Bc | Register::De | Register::Hl | Register::Sp
                    ) {
                        return Option::None;
                    }
                    match source {
                        Operand::U16(v) => {
                            self.set_r16(&r_dest, v);
                            Option::Some(12)
                        },
                        Operand::Register(Register::Hl) => {
                            if !matches!(r_dest, Register::Sp) {
                                return Option::None;
                            }
                            let v = self.hl.get_u16();
                            self.sp = v;
                            Option::Some(8)
                        },
                        Operand::StackOffset(d) => {
                            if !matches!(r_dest, Register::Hl) {
                                return Option::None;
                            }
                            let sum = self.sp_plus_signed(d);
                            self.hl.set_u16(sum);
                            Option::Some(12)
                        },
                        _ => Option::None,
                    }
                },
                Operand::Deref(DerefOperand::Address(addr)) => {
                    if !matches!(source, Operand::Register(Register::Sp)) {
                        return Option::None;
                    }
                    let sp = self.sp;
                    memory_bus.write_u16(addr, sp);
                    Option::Some(20)
                },
                _ => Option::None,
            }

    }

    /// BIT n,x: Z reports whether the named bit is clear; N=0, H=1,
    /// C untouched.
    #[verifier::rlimit(100)]
    #[verifier::spinoff_prover]
    fn execute_bit_test(
        &mut self,
        memory_bus: &mut MemoryBus,
        bit: u8,
        destination: Operand,
    ) -> (r: Option<u64>)
        requires
            old(self).wf(),
            old(memory_bus).wf(),
        ensures
            final(self).wf(),
            final(memory_bus).wf(),
            r matches Option::Some(cycles) ==> cycles == 8 || cycles == 12,
            final(self).pc == old(self).pc,
            Cpu::spec_execute_effect(
                *old(self),
                *old(memory_bus),
                *final(self),
                *final(memory_bus),
                Opcode::Bit { bit, destination },
                r,
            ),
    {
            if bit >= 8 {
                return Option::None;
            }
            match destination {
                Operand::Register(reg) => {
                    if !matches!(
                        reg,
                        Register::A
                            | Register::B
                            | Register::C
                            | Register::D
                            | Register::E
                            | Register::H
                            | Register::L
                    ) {
                        return Option::None;
                    }
                    let v = self.get_r8(&reg);
                    let is_set = Cpu::test_bit(bit, v);
                    self.set_zero_flag_from_bool(!is_set);
                    self.set_subtraction_flag_from_bool(false);
                    self.set_half_carry_flag_from_bool(true);
                    Option::Some(8)
                },
                Operand::Deref(DerefOperand::Register(Register::Hl)) => {
                    let v = memory_bus.read_u8(self.hl.get_u16());
                    let is_set = Cpu::test_bit(bit, v);
                    self.set_zero_flag_from_bool(!is_set);
                    self.set_subtraction_flag_from_bool(false);
                    self.set_half_carry_flag_from_bool(true);
                    Option::Some(12)
                },
                _ => Option::None,
            }

    }

    /// RES n,x: clears the named bit; no flags move.
    /// For a register target the new value is exact.
    #[verifier::rlimit(100)]
    #[verifier::spinoff_prover]
    fn execute_res(
        &mut self,
        memory_bus: &mut MemoryBus,
        bit: u8,
        destination: Operand,
    ) -> (r: Option<u64>)
        requires
            old(self).wf(),
            old(memory_bus).wf(),
        ensures
            final(self).wf(),
            final(memory_bus).wf(),
            r matches Option::Some(cycles) ==> cycles == 8 || cycles == 16,
            final(self).pc == old(self).pc,
            Cpu::spec_execute_effect(
                *old(self),
                *old(memory_bus),
                *final(self),
                *final(memory_bus),
                Opcode::Res { bit, destination },
                r,
            ),
    {
            if bit >= 8 {
                return Option::None;
            }
            match destination {
                Operand::Register(reg) => {
                    if !matches!(
                        reg,
                        Register::A
                            | Register::B
                            | Register::C
                            | Register::D
                            | Register::E
                            | Register::H
                            | Register::L
                    ) {
                        return Option::None;
                    }
                    let v = self.get_r8(&reg);
                    let cleared = Cpu::reset_bit(bit, v);
                    self.set_r8(&reg, cleared);
                    Option::Some(8)
                },
                Operand::Deref(DerefOperand::Register(Register::Hl)) => {
                    let v = memory_bus.read_u8(self.hl.get_u16());
                    let cleared = Cpu::reset_bit(bit, v);
                    memory_bus.write_u8(self.hl.get_u16(), cleared);
                    Option::Some(16)
                },
                _ => Option::None,
            }

    }

    /// SET n,x: sets the named bit; no flags move.
    #[verifier::rlimit(100)]
    #[verifier::spinoff_prover]
    fn execute_set(
        &mut self,
        memory_bus: &mut MemoryBus,
        bit: u8,
        destination: Operand,
    ) -> (r: Option<u64>)
        requires
            old(self).wf(),
            old(memory_bus).wf(),
        ensures
            final(self).wf(),
            final(memory_bus).wf(),
            r matches Option::Some(cycles) ==> cycles == 8 || cycles == 16,
            final(self).pc == old(self).pc,
            Cpu::spec_execute_effect(
                *old(self),
                *old(memory_bus),
                *final(self),
                *final(memory_bus),
                Opcode::SetBit { bit, destination },
                r,
            ),
    {
            if bit >= 8 {
                return Option::None;
            }
            match destination {
                Operand::Register(reg) => {
                    if !matches!(
                        reg,
                        Register::A
                            | Register::B
                            | Register::C
                            | Register::D
                            | Register::E
                            | Register::H
                            | Register::L
                    ) {
                        return Option::None;
                    }
                    let v = self.get_r8(&reg);
                    let set = Cpu::set_bit(bit, v);
                    self.set_r8(&reg, set);
                    Option::Some(8)
                },
                Operand::Deref(DerefOperand::Register(Register::Hl)) => {
                    let v = memory_bus.read_u8(self.hl.get_u16());
                    let set = Cpu::set_bit(bit, v);
                    memory_bus.write_u8(self.hl.get_u16(), set);
                    Option::Some(16)
                },
                _ => Option::None,
            }

    }

    /// INC on a register or (HL): the value gains one modulo 256;
    /// Z and H follow the result, N clears, C is untouched.
    #[verifier::rlimit(100)]
    #[verifier::spinoff_prover]
    fn execute_inc8(&mut self, memory_bus: &mut MemoryBus, operand: Operand) -> (r:
        Option<u64>)
        requires
            old(self).wf(),
            old(memory_bus).wf(),
        ensures
            final(self).wf(),
            final(memory_bus).wf(),
            r matches Option::Some(cycles) ==> cycles == 4 || cycles == 12,
            final(self).pc == old(self).pc,
            Cpu::spec_execute_effect(
                *old(self),
                *old(memory_bus),
                *final(self),
                *final(memory_bus),
                Opcode::Inc { operand },
                r,
            ),
    {
            match operand {
                Operand::Register(reg) => {
                    if !matches!(
                        reg,
                        Register::A
                            | Register::B
                            | Register::C
                            | Register::D
                            | Register::E
                            | Register::H
                            | Register::L
                    ) {
                        return Option::None;
                    }
                    let v = self.get_r8(&reg);
                    let result = self.inc_value(v);
                    self.set_r8(&reg, result);
                    Option::Some(4)
                },
                Operand::Deref(DerefOperand::Register(Register::Hl)) => {
                    let v = memory_bus.read_u8(self.hl.get_u16());
                    let result = self.inc_value(v);
                    memory_bus.write_u8(self.hl.get_u16(), result);
                    Option::Some(12)
                },
                _ => Option::None,
            }

    }

    /// DEC on a register or (HL): the value loses one modulo 256;
    /// Z and H follow the result, N sets, C is untouched.
    #[verifier::rlimit(100)]
    #[verifier::spinoff_prover]
    fn execute_dec8(&mut self, memory_bus: &mut MemoryBus, operand: Operand) -> (r:
        Option<u64>)
        requires
            old(self).wf(),
            old(memory_bus).wf(),
        ensures
            final(self).wf(),
            final(memory_bus).wf(),
            r matches Option::Some(cycles) ==> cycles == 4 || cycles == 12,
            final(self).pc == old(self).pc,
            Cpu::spec_execute_effect(
                *old(self),
                *old(memory_bus),
                *final(self),
                *final(memory_bus),
                Opcode::Dec { operand },
                r,
            ),
    {
            match operand {
                Operand::Register(reg) => {
                    if !matches!(
                        reg,
                        Register::A
                            | Register::B
                            | Register::C
                            | Register::D
                            | Register::E
                            | Register::H
                            | Register::L
                    ) {
                        return Option::None;
                    }
                    let v = self.get_r8(&reg);
                    let result = self.dec_value(v);
                    self.set_r8(&reg, result);
                    Option::Some(4)
                },
                Operand::Deref(DerefOperand::Register(Register::Hl)) => {
                    let v = memory_bus.read_u8(self.hl.get_u16());
                    let result = self.dec_value(v);
                    memory_bus.write_u8(self.hl.get_u16(), result);
                    Option::Some(12)
                },
                _ => Option::None,
            }

    }

    /// ADD HL,rr and ADD SP,e: both sums wrap modulo 2^16. The HL
    /// form keeps Z and takes H and C from the bit-11 and bit-15
    /// carries; the SP form clears Z and takes H and C from an
    /// unsigned byte add of SP's low byte.
    #[verifier::rlimit(100)]
    #[verifier::spinoff_prover]
    fn execute_add16(
        &mut self,
        memory_bus: &mut MemoryBus,
        register: Register,
        operand: Operand,
    ) -> (r: Option<u64>)
        requires
            old(self).wf(),
            old(memory_bus).wf(),
        ensures
            final(self).wf(),
            final(memory_bus).wf(),
            r matches Option::Some(cycles) ==> cycles == 8 || cycles == 16,
            final(self).pc == old(self).pc,
            Cpu::spec_execute_effect(
                *old(self),
                *old(memory_bus),
                *final(self),
                *final(memory_bus),
                Opcode::Add16 { register, operand },
                r,
            ),
    {
            match register {
                Register::Hl => {
                    let v: u16 = match operand {
                        Operand::Register(Register::Bc) => self.bc.get_u16(),
                        Operand::Register(Register::De) => self.de.get_u16(),
                        Operand::Register(Register::Hl) => self.hl.get_u16(),
                        Operand::Register(Register::Sp) => self.sp,
                        _ => {
                            return Option::None;
                        },
                    };
                    let hl = self.hl.get_u16();
                    let wide: u32 = hl as u32 + v as u32;
                    let sum: u16 = (wide % 0x10000) as u16;
                    let zero = self.get_zero_flag();
                    let half_carry = hl % 0x1000 + v % 0x1000 > 0xfff;
                    let carry = wide > 0xffff;
                    self.hl.set_u16(sum);
                    self.set_flags_from_bools(zero, false, half_carry, carry);
                    Option::Some(8)
                },
                Register::Sp => {
                    match operand {
                        Operand::I8(d) => {
                            let sum = self.sp_plus_signed(d);
                            self.sp = sum;
                            Option::Some(16)
                        },
                        _ => Option::None,
                    }
                },
                _ => Option::None,
            }

    }

    /// The shared register/(HL) plumbing of the CB rotate and shift
    /// family; `kind` selects RLC, RRC, RL, RR, SLA, SRA, SWAP, SRL
    /// in table order.
    fn rotate_shift_op(&mut self, memory_bus: &mut MemoryBus, operand: Operand, kind: u8) -> (r:
        Option<u64>)
        requires
            old(self).wf(),
            old(memory_bus).wf(),
            kind < 8,
        ensures
            final(self).wf(),
            final(memory_bus).wf(),
            r matches Option::Some(cycles) ==> cycles == 8 || cycles == 16,
            final(self).pc == old(self).pc,
            Cpu::spec_rotate_op_effect(
                *old(self),
                *old(memory_bus),
                *final(self),
                *final(memory_bus),
                kind,
                operand,
                r,
            ),
    {
        match operand {
            Operand::Register(reg) => {
                if !matches!(
                    reg,
                    Register::A
                        | Register::B
                        | Register::C
                        | Register::D
                        | Register::E
                        | Register::H
                        | Register::L
                ) {
                    return Option::None;
                }
                let v = self.get_r8(&reg);
                let result = self.apply_rotate_shift(v, kind);
                self.set_r8(&reg, result);
                Option::Some(8)
            },
            Operand::Deref(DerefOperand::Register(Register::Hl)) => {
                let v = memory_bus.read_u8(self.hl.get_u16());
                let result = self.apply_rotate_shift(v, kind);
                memory_bus.write_u8(self.hl.get_u16(), result);
                Option::Some(16)
            },
            _ => Option::None,
        }
    }

    /// What the rotate/shift family computes, by kind in table
    /// order: RLC, RRC, RL, RR, SLA, SRA, SWAP, SRL.
    pub open spec fn spec_rotate_result(kind: u8, v: u8, carry_in: bool) -> int {
        if kind == 0 {
            (v * 2) % 256 + v / 128
        } else if kind == 1 {
            v / 2 + (v % 2) * 128
        } else if kind == 2 {
            (v * 2) % 256 + (if carry_in {
                1int
            } else {
                0int
            })
        } else if kind == 3 {
            v / 2 + (if carry_in {
                128int
            } else {
                0int
            })
        } else if kind == 4 {
            (v * 2) % 256
        } else if kind == 5 {
            v / 2 + (v / 128) * 128
        } else if kind == 6 {
            (v % 16) * 16 + v / 16
        } else {
            (v as int) / 2
        }
    }

    /// The bit the rotate/shift family pushes into C: the leaving
    /// high bit for the left forms, the leaving low bit for the right
    /// forms, nothing for SWAP.
    pub open spec fn spec_rotate_carry_out(kind: u8, v: u8) -> bool {
        if kind == 0 || kind == 2 || kind == 4 {
            v / 128 == 1
        } else if kind == 6 {
            false
        } else {
            v % 2 == 1
        }
    }

    fn apply_rotate_shift(&mut self, v: u8, kind: u8) -> (r: u8)
        requires
            old(self).wf(),
            kind < 8,
        ensures
            final(self).wf(),
            Cpu::spec_same_but_flags(*old(self), *final(self)),
            r == Cpu::spec_rotate_result(kind, v, old(self).spec_carry_flag()),
            final(self).spec_zero_flag() == (r == 0),
            final(self).spec_subtraction_flag() == false,
            final(self).spec_half_carry_flag() == false,
            final(self).spec_carry_flag() == Cpu::spec_rotate_carry_out(kind, v),
    {
        if kind == 0 {
            self.rlc_value(v)
        } else if kind == 1 {
            self.rrc_value(v)
        } else if kind == 2 {
            self.rl_value(v)
        } else if kind == 3 {
            self.rr_value(v)
        } else if kind == 4 {
            self.sla_value(v)
        } else if kind == 5 {
            self.sra_value(v)
        } else if kind == 6 {
            self.swap_value(v)
        } else {
            self.srl_value(v)
        }
    }

    /// The target of a relative jump: PC plus the signed offset,
    /// wrapping modulo 2^16.
    fn relative_target(pc: u16, offset: i8) -> (r: u16)
        ensures
            r == (pc + offset) % 0x10000,
    {
        let t: i32 = pc as i32 + offset as i32;
        let wrapped: i32 = if t < 0 {
            t + 0x10000
        } else if t >= 0x10000 {
            t - 0x10000
        } else {
            t
        };
        wrapped as u16
    }

    /// The flags as a short string: "Z", "N", "H", "C" for set flags,
    /// underscores for clear ones.
    pub fn dump_flags_to_string(&self) -> (r: String)
        ensures
            r@.len() == 4,
    {
        proof {
            reveal_strlit("Z");
            reveal_strlit("N");
            reveal_strlit("H");
            reveal_strlit("C");
            reveal_strlit("_");
        }
        let mut out = String::new();
        out.append(if self.get_zero_flag() {
            "Z"
        } else {
            "_"
        });
        out.append(if self.get_subtraction_flag() {
            "N"
        } else {
            "_"
        });
        out.append(if self.get_half_carry_flag() {
            "H"
        } else {
            "_"
        });
        out.append(if self.get_carry_flag() {
            "C"
        } else {
            "_"
        });
        out
    }

    /// Resets the whole register file to its boot state.
    pub fn reset(&mut self)
        ensures
            *final(self) == Cpu::spec_boot(),
            final(self).wf(),
    {
        *self = Cpu::new();
    }
}

impl Default for Cpu {
    fn default() -> (r: Self)
        ensures
            r.wf(),
            r.af.spec_u16() == 0x01b0,
            r.pc == 0x100,
            r.sp == 0xfffe,
            r.state matches CpuState::Running,
    {
        Cpu::new()
    }
}

/// Law: a PUSH followed by a POP hands the pushed word back exactly.
/// `pre` is the bus before the push and `post` the bus after it: the
/// push stored the word's bytes at SP-2 and SP-1 (here wholly inside
/// work RAM, its echo, or high RAM) and touched nothing else, which
/// is what `Cpu::push` guarantees; the reads a POP then performs
/// return the same word. POP AF keeps only bits 4 and up, so a pushed
/// AF value (whose low nibble is zero by the flag invariant) also
/// returns exactly.
pub proof fn lemma_push_pop_round_trip(pre: MemoryBus, post: MemoryBus, sp: u16, v: u16)
    requires
        pre.wf(),
        0xc002 <= sp <= 0xe000 || 0xe002 <= sp <= 0xfe00 || 0xff82 <= sp <= 0xffff,
        MemoryBus::spec_word_write_effect(pre, post, (sp - 2) as u16, v),
    ensures
        post.spec_bus_read((sp - 2) as u16) + 256 * post.spec_bus_read((sp - 1) as u16) == v,
        v % 16 == 0 ==> ((post.spec_bus_read((sp - 2) as u16) + 256 * post.spec_bus_read(
            (sp - 1) as u16,
        )) / 16) * 16 == v,
{
}

} // verus!
