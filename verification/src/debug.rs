use vstd::prelude::*;
use vstd::string::*;

verus! {

/// Which kinds of access arm a breakpoint.
#[derive(Clone, Copy, Debug)]
pub enum AccessType {
    Read,
    Write,
    Execute,
    ReadWrite,
    ReadExecute,
    WriteExecute,
    ReadWriteExecute,
}

/// An ASCII upper-case letter folded to lower case; any other byte
/// is left alone.
pub open spec fn spec_ascii_lower(b: u8) -> u8 {
    if 65 <= b <= 90 {
        (b + 32) as u8
    } else {
        b
    }
}

/// The UTF-8 bytes of an argument, case-folded.
pub open spec fn spec_fold_lower(s: Seq<u8>) -> Seq<u8> {
    Seq::new(s.len(), |i: int| spec_ascii_lower(s[i]))
}

/// The access type a case-folded breakpoint-command argument names:
/// `r`, `w`, `e` or a combination in that order (the byte values are
/// the ASCII letters r, w, e).
pub open spec fn spec_access_type_of(s: Seq<u8>) -> Option<AccessType> {
    if s.len() == 1 && s[0] == 114 {
        Option::Some(AccessType::Read)
    } else if s.len() == 1 && s[0] == 119 {
        Option::Some(AccessType::Write)
    } else if s.len() == 1 && s[0] == 101 {
        Option::Some(AccessType::Execute)
    } else if s.len() == 2 && s[0] == 114 && s[1] == 119 {
        Option::Some(AccessType::ReadWrite)
    } else if s.len() == 2 && s[0] == 114 && s[1] == 101 {
        Option::Some(AccessType::ReadExecute)
    } else if s.len() == 2 && s[0] == 119 && s[1] == 101 {
        Option::Some(AccessType::WriteExecute)
    } else if s.len() == 3 && s[0] == 114 && s[1] == 119 && s[2] == 101 {
        Option::Some(AccessType::ReadWriteExecute)
    } else {
        Option::None
    }
}

impl AccessType {
    /// Parses an access-type argument, ignoring ASCII case; an
    /// unknown argument comes back as the error so the caller can
    /// name it.
    pub fn from_string(s: &str) -> (r: Result<AccessType, String>)
        ensures
            spec_access_type_of(spec_fold_lower(s.spec_bytes())) matches Option::Some(a) ==> r
                == Result::<AccessType, String>::Ok(a),
            spec_access_type_of(spec_fold_lower(s.spec_bytes())) is None ==> (r matches Err(msg)
                && msg@ == s@),
    {
        let bytes = s.as_bytes_vec();
        let mut folded: Vec<u8> = Vec::new();
        let mut i: usize = 0;
        while i < bytes.len()
            invariant
                i <= bytes@.len(),
                bytes@ == s.spec_bytes(),
                folded@.len() == i,
                forall|j: int| 0 <= j < i ==> folded@[j] == spec_ascii_lower(bytes@[j]),
            decreases bytes@.len() - i,
        {
            let b = bytes[i];
            if 65 <= b && b <= 90 {
                folded.push(b + 32);
            } else {
                folded.push(b);
            }
            i = i + 1;
        }
        proof {
            assert(folded@ =~= spec_fold_lower(s.spec_bytes()));
        }
        let n = folded.len();
        if n == 1 && folded[0] == 114 {
            Ok(AccessType::Read)
        } else if n == 1 && folded[0] == 119 {
            Ok(AccessType::Write)
        } else if n == 1 && folded[0] == 101 {
            Ok(AccessType::Execute)
        } else if n == 2 && folded[0] == 114 && folded[1] == 119 {
            Ok(AccessType::ReadWrite)
        } else if n == 2 && folded[0] == 114 && folded[1] == 101 {
            Ok(AccessType::ReadExecute)
        } else if n == 2 && folded[0] == 119 && folded[1] == 101 {
            Ok(AccessType::WriteExecute)
        } else if n == 3 && folded[0] == 114 && folded[1] == 119 && folded[2] == 101 {
            Ok(AccessType::ReadWriteExecute)
        } else {
            Err(String::from_str(s))
        }
    }

    pub open spec fn spec_on_read(self) -> bool {
        match self {
            AccessType::Read
            | AccessType::ReadWrite
            | AccessType::ReadExecute
            | AccessType::ReadWriteExecute => true,
            _ => false,
        }
    }

    pub open spec fn spec_on_write(self) -> bool {
        match self {
            AccessType::Write
            | AccessType::ReadWrite
            | AccessType::WriteExecute
            | AccessType::ReadWriteExecute => true,
            _ => false,
        }
    }

    pub open spec fn spec_on_execute(self) -> bool {
        match self {
            AccessType::Execute
            | AccessType::ReadExecute
            | AccessType::WriteExecute
            | AccessType::ReadWriteExecute => true,
            _ => false,
        }
    }

    #[must_use]
    pub fn on_read(&self) -> (r: bool)
        ensures
            r == self.spec_on_read(),
    {
        matches!(
            self,
            AccessType::Read
                | AccessType::ReadWrite
                | AccessType::ReadExecute
                | AccessType::ReadWriteExecute
        )
    }

    #[must_use]
    pub fn on_write(&self) -> (r: bool)
        ensures
            r == self.spec_on_write(),
    {
        matches!(
            self,
            AccessType::Write
                | AccessType::ReadWrite
                | AccessType::WriteExecute
                | AccessType::ReadWriteExecute
        )
    }

    #[must_use]
    pub fn on_execute(&self) -> (r: bool)
        ensures
            r == self.spec_on_execute(),
    {
        matches!(
            self,
            AccessType::Execute
                | AccessType::ReadExecute
                | AccessType::WriteExecute
                | AccessType::ReadWriteExecute
        )
    }
}

/// Why a breakpoint exists.
#[derive(Clone, Copy, Debug)]
pub enum BreakReason {
    User,
}

/// A breakpoint over `length` bytes starting at `address`, armed for
/// the accesses in `access_type`.
#[derive(Clone, Copy, Debug)]
pub struct Breakpoint {
    pub address: u16,
    pub access_type: AccessType,
    pub length: u16,
    pub reason: BreakReason,
}

impl Breakpoint {
    #[must_use]
    pub fn new(address: u16, access_type: AccessType, length: u16, reason: BreakReason) -> (r:
        Breakpoint)
        ensures
            r.address == address,
            r.access_type == access_type,
            r.length == length,
            r.reason == reason,
    {
        Breakpoint { address, access_type, length, reason }
    }

    /// Whether `address` falls in the breakpoint's byte range.
    #[must_use]
    pub fn matches_address(&self, address: u16) -> (r: bool)
        ensures
            r == (self.address <= address && address < self.address + self.length),
    {
        self.address <= address && (address as u32) < self.address as u32 + self.length as u32
    }
}

} // verus!
