use vstd::prelude::*;

verus! {

/// One 16-bit register pair, stored as two independent bytes.
/// The 16-bit value of the pair is always `high * 256 + low`
/// (i.e. `(high << 8) | low`), so byte accesses never have to
/// reconstruct anything across an endianness boundary.
#[derive(Clone, Copy, Debug)]
pub struct RegisterStorage {
    pub high: u8,
    pub low: u8,
}

impl RegisterStorage {
    /// The combined 16-bit value of the pair.
    pub open spec fn spec_u16(self) -> u16 {
        (self.high * 256 + self.low) as u16
    }

    pub open spec fn spec_high(self) -> u8 {
        self.high
    }

    pub open spec fn spec_low(self) -> u8 {
        self.low
    }

    pub fn new(value: u16) -> (r: Self)
        ensures
            r.spec_u16() == value,
            r.spec_high() == value / 256,
            r.spec_low() == value % 256,
    {
        RegisterStorage { high: (value / 256) as u8, low: (value % 256) as u8 }
    }

    pub fn set_low(&mut self, value: u8)
        ensures
            final(self).spec_low() == value,
            final(self).spec_high() == old(self).spec_high(),
    {
        self.low = value;
    }

    pub fn set_high(&mut self, value: u8)
        ensures
            final(self).spec_high() == value,
            final(self).spec_low() == old(self).spec_low(),
    {
        self.high = value;
    }

    pub fn set_u16(&mut self, value: u16)
        ensures
            final(self).spec_u16() == value,
            final(self).spec_high() == value / 256,
            final(self).spec_low() == value % 256,
    {
        self.high = (value / 256) as u8;
        self.low = (value % 256) as u8;
    }

    pub fn get_low(&self) -> (r: u8)
        ensures
            r == self.spec_low(),
    {
        self.low
    }

    pub fn get_high(&self) -> (r: u8)
        ensures
            r == self.spec_high(),
    {
        self.high
    }

    pub fn get_u16(&self) -> (r: u16)
        ensures
            r == self.spec_u16(),
    {
        self.high as u16 * 256 + self.low as u16
    }
}

impl Default for RegisterStorage {
    fn default() -> (r: Self)
        ensures
            r.spec_u16() == 0,
    {
        RegisterStorage { high: 0, low: 0 }
    }
}

} // verus!
