use vstd::prelude::*;

verus! {

/// How many CPU cycles pass between DIV increments (16384 Hz).
pub const CYCLES_PER_DIV_TICK: u64 = 256;

/// What one `tick` call does: DIV gains a count per 256 cycles; an
/// enabled TIMA gains one per `spec_tima_rate` cycles and reloads
/// from TMA on overflow; `fired` reports the timer interrupt, raised
/// exactly when an overflow happened.
pub open spec fn spec_timer_tick(pre: Timer, post: Timer, cycles: u64, fired: bool) -> bool {
    &&& post.timer_reset_value == pre.timer_reset_value
    &&& post.control == pre.control
    &&& post.divider == ((pre.divider + (pre.div_cycles_counter + cycles) / 256) % 256) as u8
    &&& post.div_cycles_counter == (pre.div_cycles_counter + cycles) % 256
    &&& (!spec_tima_enabled(pre.control) ==> {
        &&& fired == false
        &&& post.timer_counter == pre.timer_counter
        &&& post.tma_cycles_counter == pre.tma_cycles_counter
    })
    &&& (spec_tima_enabled(pre.control) ==> ({
        let rate = spec_tima_rate(pre.control) as int;
        let total = pre.tma_cycles_counter + cycles;
        let n = total / rate;
        let headroom = 256 - pre.timer_counter;
        &&& post.tma_cycles_counter == total % rate
        &&& fired == (n >= headroom)
        &&& post.timer_counter == (if n < headroom {
            (pre.timer_counter + n) as u8
        } else {
            (pre.timer_reset_value + (n - headroom) % (256 - pre.timer_reset_value)) as u8
        })
    }))
}

/// The timer block behind 0xff04..=0xff07: DIV, TIMA, TMA and TAC,
/// with the cycle remainders that carry between ticks.
#[derive(Debug)]
pub struct Timer {
    pub divider: u8,
    pub timer_counter: u8,
    pub timer_reset_value: u8,
    pub control: u8,
    pub div_cycles_counter: u64,
    pub tma_cycles_counter: u64,
}

/// How many CPU cycles one TIMA increment takes under TAC's low two
/// bits: 4096 Hz, 262144 Hz, 65536 Hz, 16384 Hz.
pub open spec fn spec_tima_rate(control: u8) -> u64 {
    if control % 4 == 0 {
        1024
    } else if control % 4 == 1 {
        16
    } else if control % 4 == 2 {
        64
    } else {
        256
    }
}

/// TAC bit 2: whether TIMA counts at all.
pub open spec fn spec_tima_enabled(control: u8) -> bool {
    (control / 4) % 2 == 1
}

impl Timer {
    /// The carried remainders never reach a full period.
    pub open spec fn wf(self) -> bool {
        &&& self.div_cycles_counter < 256
        &&& self.tma_cycles_counter < 1024
        &&& self.control < 8
    }

    #[must_use]
    pub fn read_u8(&self, offset: u16) -> (r: u8)
        requires
            offset < 4,
        ensures
            offset == 0 ==> r == self.divider,
            offset == 1 ==> r == self.timer_counter,
            offset == 2 ==> r == self.timer_reset_value,
            offset == 3 ==> r == self.control,
    {
        if offset == 0 {
            self.divider
        } else if offset == 1 {
            self.timer_counter
        } else if offset == 2 {
            self.timer_reset_value
        } else {
            self.control
        }
    }

    /// Any write to DIV resets it to zero; TAC keeps only its low
    /// three bits.
    pub fn write_u8(&mut self, offset: u16, byte: u8)
        requires
            offset < 4,
        ensures
            *final(self) == (if offset == 0 {
                Timer { divider: 0, ..*old(self) }
            } else if offset == 1 {
                Timer { timer_counter: byte, ..*old(self) }
            } else if offset == 2 {
                Timer { timer_reset_value: byte, ..*old(self) }
            } else {
                Timer { control: (byte % 8) as u8, ..*old(self) }
            }),
            old(self).wf() ==> final(self).wf(),
    {
        if offset == 0 {
            self.divider = 0;
        } else if offset == 1 {
            self.timer_counter = byte;
        } else if offset == 2 {
            self.timer_reset_value = byte;
        } else {
            self.control = byte % 8;
        }
    }

    /// Advances the timer by `cycles` CPU cycles. DIV gains one per
    /// 256 cycles. When enabled, TIMA gains one per `spec_tima_rate`
    /// cycles; on overflow it reloads from TMA, and the call returns
    /// true (a timer interrupt) exactly when an overflow happened.
    pub fn tick(&mut self, cycles: u64) -> (r: bool)
        requires
            old(self).wf(),
            cycles <= 0x1000000,
        ensures
            final(self).wf(),
            spec_timer_tick(*old(self), *final(self), cycles, r),
    {
        let total_div = self.div_cycles_counter + cycles;
        self.divider = ((self.divider as u64 + total_div / CYCLES_PER_DIV_TICK) % 256) as u8;
        self.div_cycles_counter = total_div % CYCLES_PER_DIV_TICK;

        if (self.control / 4) % 2 == 0 {
            return false;
        }
        let rate: u64 = if self.control % 4 == 0 {
            1024
        } else if self.control % 4 == 1 {
            16
        } else if self.control % 4 == 2 {
            64
        } else {
            256
        };
        let total = self.tma_cycles_counter + cycles;
        let n = total / rate;
        self.tma_cycles_counter = total % rate;
        let headroom: u64 = 256 - self.timer_counter as u64;
        if n < headroom {
            self.timer_counter = self.timer_counter + n as u8;
            false
        } else {
            let period: u64 = 256 - self.timer_reset_value as u64;
            let past: u64 = (n - headroom) % period;
            self.timer_counter = self.timer_reset_value + past as u8;
            true
        }
    }
}

impl Default for Timer {
    fn default() -> (r: Self)
        ensures
            r.wf(),
            r.divider == 0,
            r.timer_counter == 0,
            r.timer_reset_value == 0,
            r.control == 0,
    {
        Timer {
            divider: 0,
            timer_counter: 0,
            timer_reset_value: 0,
            control: 0,
            div_cycles_counter: 0,
            tma_cycles_counter: 0,
        }
    }
}

} // verus!
