use vstd::prelude::*;

verus! {

/// CPU cycles per serial bit: the 4194304 Hz CPU clock over the
/// 8192 Hz internal serial clock.
pub const CYCLES_PER_BIT: u64 = 512;

/// What one `tick` call does: idle when no transfer runs, otherwise
/// one bit per 512 cycles with the completed byte queued; `fired`
/// reports the serial interrupt.
pub open spec fn spec_serial_tick(pre: Comms, post: Comms, cycles: u64, fired: bool) -> bool {
    &&& (!pre.spec_transfer_running() ==> post == (Comms { ticks: 0, ..pre }) && fired == false)
    &&& (pre.spec_transfer_running() && pre.ticks + cycles < 512 ==> post == (Comms {
        ticks: (pre.ticks + cycles) as u64,
        ..pre
    }) && fired == false)
    &&& (pre.spec_transfer_running() && pre.ticks + cycles >= 512 ==> ({
        let shifted_out = ((pre.out_byte * 2) % 256 + pre.io_register / 128) as u8;
        let shifted_in = ((pre.io_register % 128) * 2 + 1) as u8;
        &&& post.ticks == pre.ticks + cycles - 512
        &&& post.io_register == shifted_in
        &&& (pre.bits_written < 7 ==> post == (Comms {
            ticks: post.ticks,
            io_register: shifted_in,
            out_byte: shifted_out,
            bits_written: (pre.bits_written + 1) as u8,
            ..pre
        }) && fired == false)
        &&& (pre.bits_written == 7 ==> post == (Comms {
            ticks: post.ticks,
            io_register: shifted_in,
            out_byte: 0,
            bits_written: 0,
            control: (pre.control % 128) as u8,
            out_buffer: post.out_buffer,
            ..pre
        }) && post.out_buffer@ == pre.out_buffer@.push(shifted_out) && fired == true)
    }))
}

/// The serial port behind 0xff01 (SB) and 0xff02 (SC). With no peer
/// attached every incoming bit is one. Bytes shifted out are queued in
/// `out_buffer` for the host to persist.
#[derive(Debug)]
pub struct Comms {
    pub io_register: u8,
    pub control: u8,
    pub io_register_on_control_byte_write: u8,
    pub ticks: u64,
    pub bits_written: u8,
    pub out_byte: u8,
    /// Every byte completed so far, oldest first, until the host
    /// drains it.
    pub out_buffer: Vec<u8>,
}

impl Comms {
    pub open spec fn wf(self) -> bool {
        &&& self.ticks < 512
        &&& self.bits_written < 8
    }

    /// SC bit 7: a transfer is in progress.
    pub open spec fn spec_transfer_running(self) -> bool {
        self.control / 128 == 1
    }

    #[must_use]
    pub fn read_u8(&self, offset: u16) -> (r: u8)
        requires
            offset < 2,
        ensures
            offset == 0 ==> r == self.io_register,
            offset == 1 ==> r == self.control,
    {
        if offset == 0 {
            self.io_register
        } else {
            self.control
        }
    }

    /// A write to SC with bit 7 set starts a transfer and latches the
    /// byte being sent.
    pub fn write_u8(&mut self, offset: u16, byte: u8)
        requires
            offset < 2,
        ensures
            *final(self) == (if offset == 0 {
                Comms { io_register: byte, ..*old(self) }
            } else if byte / 128 == 1 {
                Comms {
                    control: byte,
                    io_register_on_control_byte_write: old(self).io_register,
                    ..*old(self)
                }
            } else {
                Comms { control: byte, ..*old(self) }
            }),
            old(self).wf() ==> final(self).wf(),
    {
        if offset == 0 {
            self.io_register = byte;
        } else {
            self.control = byte;
            if byte / 128 == 1 {
                self.io_register_on_control_byte_write = self.io_register;
            }
        }
    }

    /// Advances the shift clock. While a transfer runs, one bit moves
    /// out of SB (and a one moves in) every 512 cycles; after the
    /// eighth bit the assembled byte is appended to `out_buffer`, SC's
    /// start bit is cleared, and the call returns true (a serial
    /// interrupt).
    pub fn tick(&mut self, cycles: u64) -> (r: bool)
        requires
            old(self).wf(),
            cycles <= 512,
        ensures
            final(self).wf(),
            spec_serial_tick(*old(self), *final(self), cycles, r),
    {
        if self.control / 128 == 0 {
            self.ticks = 0;
            return false;
        }
        let total = self.ticks + cycles;
        if total < CYCLES_PER_BIT {
            self.ticks = total;
            return false;
        }
        self.ticks = total - CYCLES_PER_BIT;
        let shifted_out = (self.out_byte % 128) * 2 + self.io_register / 128;
        self.io_register = (self.io_register % 128) * 2 + 1;
        if self.bits_written < 7 {
            self.out_byte = shifted_out;
            self.bits_written = self.bits_written + 1;
            false
        } else {
            self.out_buffer.push(shifted_out);
            self.out_byte = 0;
            self.bits_written = 0;
            self.control = self.control % 128;
            true
        }
    }

    /// Hands the host every byte shifted out so far and empties the
    /// queue.
    pub fn take_output(&mut self) -> (r: Vec<u8>)
        ensures
            r@ == old(self).out_buffer@,
            *final(self) == (Comms { out_buffer: final(self).out_buffer, ..*old(self) }),
            final(self).out_buffer@.len() == 0,
            old(self).wf() ==> final(self).wf(),
    {
        let mut taken: Vec<u8> = Vec::new();
        core::mem::swap(&mut taken, &mut self.out_buffer);
        taken
    }
}

impl Default for Comms {
    fn default() -> (r: Self)
        ensures
            r.wf(),
            r.io_register == 0,
            r.control == 0,
            r.ticks == 0,
            r.bits_written == 0,
            r.out_byte == 0,
            r.out_buffer@.len() == 0,
    {
        Comms {
            io_register: 0,
            control: 0,
            io_register_on_control_byte_write: 0,
            ticks: 0,
            bits_written: 0,
            out_byte: 0,
            out_buffer: Vec::new(),
        }
    }
}

} // verus!
