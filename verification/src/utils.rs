use vstd::prelude::*;

verus! {

/// A single hardware flag bit, kept as its own type so that register
/// decodings can say "On"/"Off" instead of a bare boolean.
#[derive(Clone, Copy, Debug)]
pub enum Flag {
    Off,
    On,
}

impl Flag {
    pub open spec fn spec_to_bool(self) -> bool {
        match self {
            Flag::On => true,
            Flag::Off => false,
        }
    }

    #[must_use]
    pub fn to_bool(self) -> (r: bool)
        ensures
            r == self.spec_to_bool(),
    {
        matches!(self, Flag::On)
    }

    pub fn from_bool(b: bool) -> (r: Flag)
        ensures
            r.spec_to_bool() == b,
    {
        if b {
            Flag::On
        } else {
            Flag::Off
        }
    }
}

impl Default for Flag {
    fn default() -> (r: Self)
        ensures
            r.spec_to_bool() == false,
    {
        Flag::Off
    }
}

} // verus!
