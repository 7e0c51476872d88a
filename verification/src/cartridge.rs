use vstd::prelude::*;

verus! {

/// The cartridge hardware type from header byte 0x147.
#[derive(Clone, Copy, Debug)]
pub enum Type {
    Rom,
    Mbc1,
    Mbc1Ram,
    Mbc1RamBattery,
    Mbc2,
    Mbc2Battery,
    RomRam,
    RomRamBattery,
    Mmm01,
    Mmm01Ram,
    Mmm01RamBattery,
    Mbc3TimerBattery,
    Mbc3TimerRamBattery,
    Mbc3,
    Mbc3Ram,
    Mbc3RamBattery,
    Mbc5,
    Mbc5Ram,
    Mbc5RamBattery,
    Mbc5Rumble,
    Mbc5RumbleRam,
    Mbc5RumbleRamBattery,
    Mbc6,
    Mbc7SensorRumbleRamBattery,
    PocketCamera,
    BandaiTama5,
    HuC3,
    Huc1RamBattery,
}

pub open spec fn spec_type_of_code(v: u8) -> Option<Type> {
    if v == 0x00 {
        Option::Some(Type::Rom)
    } else if v == 0x01 {
        Option::Some(Type::Mbc1)
    } else if v == 0x02 {
        Option::Some(Type::Mbc1Ram)
    } else if v == 0x03 {
        Option::Some(Type::Mbc1RamBattery)
    } else if v == 0x05 {
        Option::Some(Type::Mbc2)
    } else if v == 0x06 {
        Option::Some(Type::Mbc2Battery)
    } else if v == 0x08 {
        Option::Some(Type::RomRam)
    } else if v == 0x09 {
        Option::Some(Type::RomRamBattery)
    } else if v == 0x0b {
        Option::Some(Type::Mmm01)
    } else if v == 0x0c {
        Option::Some(Type::Mmm01Ram)
    } else if v == 0x0d {
        Option::Some(Type::Mmm01RamBattery)
    } else if v == 0x0f {
        Option::Some(Type::Mbc3TimerBattery)
    } else if v == 0x10 {
        Option::Some(Type::Mbc3TimerRamBattery)
    } else if v == 0x11 {
        Option::Some(Type::Mbc3)
    } else if v == 0x12 {
        Option::Some(Type::Mbc3Ram)
    } else if v == 0x13 {
        Option::Some(Type::Mbc3RamBattery)
    } else if v == 0x19 {
        Option::Some(Type::Mbc5)
    } else if v == 0x1a {
        Option::Some(Type::Mbc5Ram)
    } else if v == 0x1b {
        Option::Some(Type::Mbc5RamBattery)
    } else if v == 0x1c {
        Option::Some(Type::Mbc5Rumble)
    } else if v == 0x1d {
        Option::Some(Type::Mbc5RumbleRam)
    } else if v == 0x1e {
        Option::Some(Type::Mbc5RumbleRamBattery)
    } else if v == 0x20 {
        Option::Some(Type::Mbc6)
    } else if v == 0x22 {
        Option::Some(Type::Mbc7SensorRumbleRamBattery)
    } else if v == 0xfc {
        Option::Some(Type::PocketCamera)
    } else if v == 0xfd {
        Option::Some(Type::BandaiTama5)
    } else if v == 0xfe {
        Option::Some(Type::HuC3)
    } else if v == 0xff {
        Option::Some(Type::Huc1RamBattery)
    } else {
        Option::None
    }
}

impl Type {
    /// The cartridge type for a header byte, `None` for codes no
    /// hardware was made with.
    pub fn from_code(v: u8) -> (r: Option<Type>)
        ensures
            r == spec_type_of_code(v),
    {
        if v == 0x00 {
            Option::Some(Type::Rom)
        } else if v == 0x01 {
            Option::Some(Type::Mbc1)
        } else if v == 0x02 {
            Option::Some(Type::Mbc1Ram)
        } else if v == 0x03 {
            Option::Some(Type::Mbc1RamBattery)
        } else if v == 0x05 {
            Option::Some(Type::Mbc2)
        } else if v == 0x06 {
            Option::Some(Type::Mbc2Battery)
        } else if v == 0x08 {
            Option::Some(Type::RomRam)
        } else if v == 0x09 {
            Option::Some(Type::RomRamBattery)
        } else if v == 0x0b {
            Option::Some(Type::Mmm01)
        } else if v == 0x0c {
            Option::Some(Type::Mmm01Ram)
        } else if v == 0x0d {
            Option::Some(Type::Mmm01RamBattery)
        } else if v == 0x0f {
            Option::Some(Type::Mbc3TimerBattery)
        } else if v == 0x10 {
            Option::Some(Type::Mbc3TimerRamBattery)
        } else if v == 0x11 {
            Option::Some(Type::Mbc3)
        } else if v == 0x12 {
            Option::Some(Type::Mbc3Ram)
        } else if v == 0x13 {
            Option::Some(Type::Mbc3RamBattery)
        } else if v == 0x19 {
            Option::Some(Type::Mbc5)
        } else if v == 0x1a {
            Option::Some(Type::Mbc5Ram)
        } else if v == 0x1b {
            Option::Some(Type::Mbc5RamBattery)
        } else if v == 0x1c {
            Option::Some(Type::Mbc5Rumble)
        } else if v == 0x1d {
            Option::Some(Type::Mbc5RumbleRam)
        } else if v == 0x1e {
            Option::Some(Type::Mbc5RumbleRamBattery)
        } else if v == 0x20 {
            Option::Some(Type::Mbc6)
        } else if v == 0x22 {
            Option::Some(Type::Mbc7SensorRumbleRamBattery)
        } else if v == 0xfc {
            Option::Some(Type::PocketCamera)
        } else if v == 0xfd {
            Option::Some(Type::BandaiTama5)
        } else if v == 0xfe {
            Option::Some(Type::HuC3)
        } else if v == 0xff {
            Option::Some(Type::Huc1RamBattery)
        } else {
            Option::None
        }
    }

    pub open spec fn spec_mbc_type(self) -> u8 {
        match self {
            Type::Mbc1 | Type::Mbc1Ram | Type::Mbc1RamBattery => 1,
            Type::Mbc2 | Type::Mbc2Battery => 2,
            Type::Mbc3
            | Type::Mbc3Ram
            | Type::Mbc3RamBattery
            | Type::Mbc3TimerBattery
            | Type::Mbc3TimerRamBattery => 3,
            Type::Mbc5
            | Type::Mbc5Ram
            | Type::Mbc5RamBattery
            | Type::Mbc5Rumble
            | Type::Mbc5RumbleRam
            | Type::Mbc5RumbleRamBattery => 5,
            Type::Mbc6 => 6,
            Type::Mbc7SensorRumbleRamBattery => 7,
            _ => 0,
        }
    }

    /// Which memory-bank-controller family this type belongs to
    /// (0 for plain ROM and the exotic mappers).
    pub fn mbc_type(&self) -> (r: u8)
        ensures
            r == self.spec_mbc_type(),
    {
        match *self {
            Type::Mbc1 | Type::Mbc1Ram | Type::Mbc1RamBattery => 1,
            Type::Mbc2 | Type::Mbc2Battery => 2,
            Type::Mbc3
            | Type::Mbc3Ram
            | Type::Mbc3RamBattery
            | Type::Mbc3TimerBattery
            | Type::Mbc3TimerRamBattery => 3,
            Type::Mbc5
            | Type::Mbc5Ram
            | Type::Mbc5RamBattery
            | Type::Mbc5Rumble
            | Type::Mbc5RumbleRam
            | Type::Mbc5RumbleRamBattery => 5,
            Type::Mbc6 => 6,
            Type::Mbc7SensorRumbleRamBattery => 7,
            _ => 0,
        }
    }
}

impl Default for Type {
    fn default() -> (r: Self)
        ensures
            r matches Type::Rom,
    {
        Type::Rom
    }
}

/// Whether the cartridge claims Game Boy Color features.
#[derive(Clone, Copy, Debug)]
pub enum GameBoyColorSupport {
    NoColorSupport,
    SupportsColor,
    OnlyColor,
}

impl Default for GameBoyColorSupport {
    fn default() -> (r: Self)
        ensures
            r matches GameBoyColorSupport::NoColorSupport,
    {
        GameBoyColorSupport::NoColorSupport
    }
}

/// Whether the cartridge claims Super Game Boy features.
#[derive(Clone, Copy, Debug)]
pub enum SuperGameBoySupport {
    Yes,
    No,
}

impl SuperGameBoySupport {
    pub fn from_bool(b: bool) -> (r: Self)
        ensures
            b ==> r matches SuperGameBoySupport::Yes,
            !b ==> r matches SuperGameBoySupport::No,
    {
        if b {
            SuperGameBoySupport::Yes
        } else {
            SuperGameBoySupport::No
        }
    }
}

impl Default for SuperGameBoySupport {
    fn default() -> (r: Self)
        ensures
            r matches SuperGameBoySupport::No,
    {
        SuperGameBoySupport::No
    }
}

/// The destination-market byte of the header.
#[derive(Clone, Copy, Debug)]
pub enum IsJapanese {
    Yes,
    No,
}

impl IsJapanese {
    pub fn from_bool(b: bool) -> (r: Self)
        ensures
            b ==> r matches IsJapanese::Yes,
            !b ==> r matches IsJapanese::No,
    {
        if b {
            IsJapanese::Yes
        } else {
            IsJapanese::No
        }
    }
}

impl Default for IsJapanese {
    fn default() -> (r: Self)
        ensures
            r matches IsJapanese::No,
    {
        IsJapanese::No
    }
}

/// The 48 fixed logo bytes a licensed header carries at 0x104; a
/// mismatch is reported, never fatal.
pub open spec fn spec_logo_bytes() -> Seq<u8> {
    seq![
        0xceu8, 0xed, 0x66, 0x66, 0xcc, 0x0d, 0x00, 0x0b, 0x03, 0x73, 0x00, 0x83, 0x00, 0x0c,
        0x00, 0x0d, 0x00, 0x08, 0x11, 0x1f, 0x88, 0x89, 0x00, 0x0e, 0xdc, 0xcc, 0x6e, 0xe6,
        0xdd, 0xdd, 0xd9, 0x99, 0xbb, 0xbb, 0x67, 0x63, 0x6e, 0x0e, 0xec, 0xcc, 0xdd, 0xdc,
        0x99, 0x9f, 0xbb, 0xb9, 0x33, 0x3e,
    ]
}

/// What keeps a ROM image from loading.
#[derive(Clone, Copy, Debug)]
pub enum CartridgeError {
    /// Shorter than the 0x150 bytes a header needs.
    TooShort,
    UnknownCartridgeType(u8),
    UnknownRomSizeCode(u8),
    UnknownRamSizeCode(u8),
}

/// The header checksum over bytes 0x134..=0x14c of the ROM, folded as
/// `x = x - b - 1` in eight bits; `n` is how many of those bytes have
/// been folded in so far.
pub open spec fn spec_header_checksum_upto(rom: Seq<u8>, n: int) -> int
    decreases n,
{
    if n <= 0 {
        0
    } else {
        let prev = spec_header_checksum_upto(rom, n - 1);
        (prev - rom[0x134 + n - 1] - 1) % 256
    }
}

pub open spec fn spec_header_checksum(rom: Seq<u8>) -> int {
    spec_header_checksum_upto(rom, 0x19)
}

/// Verifies as `x = 0; for b in 0x134..=0x14c: x = x - b - 1`, in
/// wrapping eight-bit arithmetic.
pub fn calculate_header_checksum(rom: &Vec<u8>) -> (r: u8)
    requires
        rom@.len() >= 0x150,
    ensures
        r == spec_header_checksum(rom@),
{
    let mut x: u8 = 0;
    let mut i: usize = 0;
    while i < 0x19
        invariant
            i <= 0x19,
            rom@.len() >= 0x150,
            x == spec_header_checksum_upto(rom@, i as int),
        decreases 0x19 - i,
    {
        let b = rom[0x134 + i];
        x = x.wrapping_sub(b).wrapping_sub(1);
        i = i + 1;
    }
    x
}

/// The global checksum: the 16-bit wrapping sum of every ROM byte
/// except the two that store it; `n` is how many bytes are summed so
/// far.
pub open spec fn spec_global_checksum_upto(rom: Seq<u8>, n: int) -> int
    decreases n,
{
    if n <= 0 {
        0
    } else {
        let prev = spec_global_checksum_upto(rom, n - 1);
        if n - 1 == 0x14e || n - 1 == 0x14f {
            prev
        } else {
            (prev + rom[n - 1]) % 0x10000
        }
    }
}

pub open spec fn spec_global_checksum(rom: Seq<u8>) -> int {
    spec_global_checksum_upto(rom, rom.len() as int)
}

/// Verifies as the sum of all ROM bytes modulo 2^16, skipping the
/// checksum's own two bytes at 0x14e and 0x14f.
pub fn calculate_global_checksum(rom: &Vec<u8>) -> (r: u16)
    ensures
        r == spec_global_checksum(rom@),
{
    let mut x: u16 = 0;
    let mut i: usize = 0;
    while i < rom.len()
        invariant
            i <= rom@.len(),
            x == spec_global_checksum_upto(rom@, i as int),
        decreases rom@.len() - i,
    {
        if !(i == 0x14e || i == 0x14f) {
            x = x.wrapping_add(rom[i] as u16);
        }
        i = i + 1;
    }
    x
}

pub open spec fn spec_rom_size(code: u8) -> u32 {
    if code == 0 {
        0x8000
    } else if code == 1 {
        0x10000
    } else if code == 2 {
        0x20000
    } else if code == 3 {
        0x40000
    } else if code == 4 {
        0x80000
    } else if code == 5 {
        0x100000
    } else if code == 6 {
        0x200000
    } else if code == 7 {
        0x400000
    } else if code == 8 {
        0x800000
    } else {
        0x1000000
    }
}

pub open spec fn spec_ram_size(code: u8) -> u32 {
    if code == 0 {
        0
    } else if code == 2 {
        0x2000
    } else if code == 3 {
        0x8000
    } else if code == 4 {
        0x20000
    } else {
        0x10000
    }
}

/// A loaded cartridge: the ROM image, the decoded header fields, and
/// the MBC1 banking state the CPU drives through ROM-area writes.
#[derive(Debug)]
pub struct Cartridge {
    pub rom: Vec<u8>,
    /// The title bytes from the header (ASCII, zero padded).
    pub title: Vec<u8>,
    pub manufacturer_code: Vec<u8>,
    pub color_support: GameBoyColorSupport,
    pub licensee_code: Vec<u8>,
    pub supports_sgb: SuperGameBoySupport,
    pub cartridge_type: Type,
    pub rom_size: u32,
    pub external_ram_size: u32,
    pub is_japanese: IsJapanese,
    pub rom_version: u8,
    pub header_checksum: u8,
    pub global_checksum: u16,
    pub external_ram: Vec<u8>,
    pub enable_external_ram: bool,
    /// The low five bank bits; never zero (writing zero selects one).
    pub rom_bank_selected: u8,
    /// The two-bit RAM-bank / upper-ROM-bank register.
    pub upper_bank_bits: u8,
    pub advanced_banking_mode: bool,
}

impl Cartridge {
    /// The banking state a well-formed cartridge keeps: the five-bit
    /// bank register is in 1..32, the upper register fits in two bits,
    /// and the declared sizes agree with the buffers.
    pub open spec fn wf(self) -> bool {
        &&& 1 <= self.rom_bank_selected < 32
        &&& self.upper_bank_bits < 4
        &&& self.rom_size >= 0x8000
        &&& self.rom_size % 0x4000 == 0
        &&& self.external_ram@.len() == self.external_ram_size
        &&& self.external_ram_size <= 0x20000
    }

    /// The ROM bank that reads of 0x4000..0x7fff go through: the two
    /// upper bits over the five-bit register, reduced to the banks the
    /// ROM declares.
    pub open spec fn spec_effective_bank(self) -> u32 {
        ((self.upper_bank_bits * 32 + self.rom_bank_selected) as u32) % (self.rom_size / 0x4000)
    }

    /// Parses a ROM image: reads the header fields, sizes the external
    /// RAM, and starts with bank one selected and RAM disabled.
    pub fn new(rom: Vec<u8>) -> (r: Result<Self, CartridgeError>)
        ensures
            rom@.len() < 0x150 <==> r matches Err(CartridgeError::TooShort),
            r matches Ok(c) ==> {
                &&& c.wf()
                &&& c.rom@ == rom@
                &&& spec_type_of_code(rom@[0x147]) == Option::Some(c.cartridge_type)
                &&& c.rom_size == spec_rom_size(rom@[0x148])
                &&& c.external_ram_size == (if c.cartridge_type.spec_mbc_type() == 2 {
                    256u32
                } else {
                    spec_ram_size(rom@[0x149])
                })
                &&& c.rom_version == rom@[0x14c]
                &&& c.header_checksum == rom@[0x14d]
                &&& c.global_checksum == rom@[0x14e] * 256 + rom@[0x14f]
                &&& c.enable_external_ram == false
                &&& c.rom_bank_selected == 1
                &&& c.upper_bank_bits == 0
                &&& c.advanced_banking_mode == false
                &&& c.supports_sgb == (if rom@[0x146] == 3 {
                    SuperGameBoySupport::Yes
                } else {
                    SuperGameBoySupport::No
                })
                &&& c.is_japanese == (if rom@[0x14a] == 0 {
                    IsJapanese::Yes
                } else {
                    IsJapanese::No
                })
                &&& c.color_support == (if rom@[0x143] / 128 == 0 {
                    GameBoyColorSupport::NoColorSupport
                } else if rom@[0x143] / 64 == 3 {
                    GameBoyColorSupport::OnlyColor
                } else {
                    GameBoyColorSupport::SupportsColor
                })
                &&& c.title@ == (if rom@[0x143] / 128 == 0 {
                    rom@.subrange(0x134, 0x144)
                } else {
                    rom@.subrange(0x134, 0x143)
                })
                &&& c.manufacturer_code@ == (if rom@[0x143] / 128 == 0 {
                    seq![0u8, 0u8, 0u8, 0u8]
                } else {
                    rom@.subrange(0x13f, 0x143)
                })
                &&& c.licensee_code@ == (if rom@[0x14b] == 0x33 {
                    rom@.subrange(0x144, 0x146)
                } else {
                    seq![rom@[0x14b], 0u8]
                })
            },
    {
        if rom.len() < 0x150 {
            return Err(CartridgeError::TooShort);
        }
        let color_flag = rom[0x143];
        let color_support: GameBoyColorSupport;
        let mut manufacturer_code: Vec<u8> = Vec::new();
        let mut title: Vec<u8> = Vec::new();
        let title_len: usize;
        if color_flag / 128 == 0 {
            color_support = GameBoyColorSupport::NoColorSupport;
            manufacturer_code.push(0);
            manufacturer_code.push(0);
            manufacturer_code.push(0);
            manufacturer_code.push(0);
            title_len = 16;
        } else {
            color_support = if color_flag / 64 == 3 {
                GameBoyColorSupport::OnlyColor
            } else {
                GameBoyColorSupport::SupportsColor
            };
            manufacturer_code.push(rom[0x13f]);
            manufacturer_code.push(rom[0x140]);
            manufacturer_code.push(rom[0x141]);
            manufacturer_code.push(rom[0x142]);
            title_len = 15;
        }
        proof {
            if color_flag / 128 == 0 {
                assert(manufacturer_code@ =~= seq![0u8, 0u8, 0u8, 0u8]);
            } else {
                assert(manufacturer_code@ =~= rom@.subrange(0x13f, 0x143));
            }
        }
        let mut i: usize = 0;
        while i < title_len
            invariant
                title_len <= 16,
                i <= title_len,
                rom@.len() >= 0x150,
                title@.len() == i,
                forall|j: int| 0 <= j < i ==> title@[j] == rom@[0x134 + j],
            decreases title_len - i,
        {
            title.push(rom[0x134 + i]);
            i = i + 1;
        }
        proof {
            assert(title@ =~= rom@.subrange(0x134, 0x134 + title_len as int));
        }
        let mut licensee_code: Vec<u8> = Vec::new();
        let old_licensee_code = rom[0x14b];
        if old_licensee_code == 0x33 {
            licensee_code.push(rom[0x144]);
            licensee_code.push(rom[0x145]);
        } else {
            licensee_code.push(old_licensee_code);
            licensee_code.push(0);
        }
        proof {
            if old_licensee_code == 0x33 {
                assert(licensee_code@ =~= rom@.subrange(0x144, 0x146));
            } else {
                assert(licensee_code@ =~= seq![rom@[0x14b], 0u8]);
            }
        }
        let supports_sgb = SuperGameBoySupport::from_bool(rom[0x146] == 0x3);
        let cartridge_type = match Type::from_code(rom[0x147]) {
            Option::Some(t) => t,
            Option::None => {
                return Err(CartridgeError::UnknownCartridgeType(rom[0x147]));
            },
        };
        let rom_size_code = rom[0x148];
        if rom_size_code > 9 {
            return Err(CartridgeError::UnknownRomSizeCode(rom_size_code));
        }
        let rom_size: u32 = if rom_size_code == 0 {
            0x8000
        } else if rom_size_code == 1 {
            0x10000
        } else if rom_size_code == 2 {
            0x20000
        } else if rom_size_code == 3 {
            0x40000
        } else if rom_size_code == 4 {
            0x80000
        } else if rom_size_code == 5 {
            0x100000
        } else if rom_size_code == 6 {
            0x200000
        } else if rom_size_code == 7 {
            0x400000
        } else if rom_size_code == 8 {
            0x800000
        } else {
            0x1000000
        };
        let external_ram_size_code = rom[0x149];
        let external_ram_size: u32;
        if cartridge_type.mbc_type() == 2 {
            external_ram_size = 256;
        } else {
            if external_ram_size_code == 0 {
                external_ram_size = 0;
            } else if external_ram_size_code == 2 {
                external_ram_size = 0x2000;
            } else if external_ram_size_code == 3 {
                external_ram_size = 0x8000;
            } else if external_ram_size_code == 4 {
                external_ram_size = 0x20000;
            } else if external_ram_size_code == 5 {
                external_ram_size = 0x10000;
            } else {
                return Err(CartridgeError::UnknownRamSizeCode(external_ram_size_code));
            }
        }
        let is_japanese = IsJapanese::from_bool(rom[0x14a] == 0);
        let rom_version = rom[0x14c];
        let header_checksum = rom[0x14d];
        let global_checksum: u16 = rom[0x14e] as u16 * 256 + rom[0x14f] as u16;
        let mut external_ram: Vec<u8> = Vec::new();
        let mut j: u32 = 0;
        while j < external_ram_size
            invariant
                j <= external_ram_size,
                external_ram_size <= 0x20000,
                external_ram@.len() == j,
            decreases external_ram_size - j,
        {
            external_ram.push(0);
            j = j + 1;
        }
        Ok(
            Cartridge {
                rom,
                title,
                manufacturer_code,
                color_support,
                licensee_code,
                supports_sgb,
                cartridge_type,
                rom_size,
                external_ram_size,
                is_japanese,
                rom_version,
                header_checksum,
                global_checksum,
                external_ram,
                enable_external_ram: false,
                rom_bank_selected: 1,
                upper_bank_bits: 0,
                advanced_banking_mode: false,
            },
        )
    }


    /// Whether the header's logo area holds the fixed 48 bytes.
    #[must_use]
    pub fn logo_matches(&self) -> (r: bool)
        requires
            self.rom@.len() >= 0x150,
        ensures
            r == (self.rom@.subrange(0x104, 0x134) =~= spec_logo_bytes()),
    {
        let expected: Vec<u8> = vec![
            0xceu8, 0xed, 0x66, 0x66, 0xcc, 0x0d, 0x00, 0x0b, 0x03, 0x73, 0x00, 0x83, 0x00,
            0x0c, 0x00, 0x0d, 0x00, 0x08, 0x11, 0x1f, 0x88, 0x89, 0x00, 0x0e, 0xdc, 0xcc, 0x6e,
            0xe6, 0xdd, 0xdd, 0xd9, 0x99, 0xbb, 0xbb, 0x67, 0x63, 0x6e, 0x0e, 0xec, 0xcc, 0xdd,
            0xdc, 0x99, 0x9f, 0xbb, 0xb9, 0x33, 0x3e,
        ];
        proof {
            assert(expected@ =~= spec_logo_bytes());
        }
        let mut i: usize = 0;
        while i < 48
            invariant
                i <= 48,
                self.rom@.len() >= 0x150,
                expected@ =~= spec_logo_bytes(),
                expected@.len() == 48,
                forall|j: int| 0 <= j < i ==> self.rom@[0x104 + j] == spec_logo_bytes()[j],
            decreases 48 - i,
        {
            if self.rom[0x104 + i] != expected[i] {
                return false;
            }
            i = i + 1;
        }
        proof {
            assert(self.rom@.subrange(0x104, 0x134) =~= spec_logo_bytes());
        }
        true
    }

    /// Reads the fixed bank: ROM byte `offset`, open bus (0xff) past
    /// the end of the image.
    #[must_use]
    pub fn read_rom_bank_0(&self, offset: u16) -> (r: u8)
        requires
            offset < 0x4000,
        ensures
            r == (if offset < self.rom@.len() {
                self.rom@[offset as int]
            } else {
                0xffu8
            }),
    {
        if (offset as usize) < self.rom.len() {
            self.rom[offset as usize]
        } else {
            0xff
        }
    }

    /// A write into 0x0000..0x3fff: the low half gates external RAM
    /// (low nibble 0xa enables it), the high half loads the five-bit
    /// bank register, with zero mapped to one.
    pub fn write_rom_bank_0(&mut self, offset: u16, byte: u8)
        requires
            offset < 0x4000,
        ensures
            *final(self) == (if offset < 0x2000 {
                Cartridge { enable_external_ram: byte % 16 == 0xa, ..*old(self) }
            } else {
                Cartridge {
                    rom_bank_selected: if byte % 32 == 0 {
                        1u8
                    } else {
                        (byte % 32) as u8
                    },
                    ..*old(self)
                }
            }),
            old(self).wf() ==> final(self).wf(),
    {
        if offset < 0x2000 {
            self.enable_external_ram = byte % 16 == 0x0a;
        } else {
            let bank = byte % 32;
            self.rom_bank_selected = if bank == 0 {
                1
            } else {
                bank
            };
        }
    }

    /// Reads the switchable bank: the effective bank is the upper two
    /// bits over the five-bit register, reduced to the banks the ROM
    /// declares; open bus (0xff) past the end of the image.
    #[must_use]
    pub fn read_rom_selected_bank(&self, offset: u16) -> (r: u8)
        requires
            offset < 0x4000,
            self.wf(),
        ensures
            r == (if self.spec_effective_bank() * 0x4000 + offset < self.rom@.len() {
                self.rom@[self.spec_effective_bank() * 0x4000 + offset]
            } else {
                0xffu8
            }),
    {
        let num_banks: u32 = self.rom_size / 0x4000;
        let bank: u32 = (self.upper_bank_bits as u32 * 32 + self.rom_bank_selected as u32)
            % num_banks;
        let address: u64 = bank as u64 * 0x4000 + offset as u64;
        if address < self.rom.len() as u64 {
            self.rom[address as usize]
        } else {
            0xff
        }
    }

    /// A write into 0x4000..0x7fff (as an offset from 0x4000): the low
    /// half loads the two-bit upper-bank register, the high half the
    /// banking-mode flag.
    pub fn write_rom_selected_bank(&mut self, offset: u16, byte: u8)
        requires
            offset < 0x4000,
        ensures
            *final(self) == (if offset < 0x2000 {
                Cartridge { upper_bank_bits: (byte % 4) as u8, ..*old(self) }
            } else {
                Cartridge { advanced_banking_mode: byte % 2 == 1, ..*old(self) }
            }),
            old(self).wf() ==> final(self).wf(),
    {
        if offset < 0x2000 {
            self.upper_bank_bits = byte % 4;
        } else {
            self.advanced_banking_mode = byte % 2 == 1;
        }
    }

    /// Reads external RAM through the MBC: 0xff while RAM is disabled,
    /// zero beyond the fitted size.
    #[must_use]
    pub fn read_from_external_ram(&self, offset: u16) -> (r: u8)
        ensures
            r == (if !self.enable_external_ram {
                0xffu8
            } else if offset < self.external_ram@.len() {
                self.external_ram@[offset as int]
            } else {
                0u8
            }),
    {
        if !self.enable_external_ram {
            return 0xff;
        }
        if (offset as usize) < self.external_ram.len() {
            self.external_ram[offset as usize]
        } else {
            0x00
        }
    }

    /// Writes external RAM through the MBC; dropped while RAM is
    /// disabled or beyond the fitted size.
    pub fn write_to_external_ram(&mut self, offset: u16, v: u8)
        ensures
            *final(self) == (if old(self).enable_external_ram && offset < old(
                self,
            ).external_ram@.len() {
                Cartridge {
                    external_ram: final(self).external_ram,
                    ..*old(self)
                }
            } else {
                *old(self)
            }),
            old(self).enable_external_ram && offset < old(self).external_ram@.len()
                ==> final(self).external_ram@ == old(self).external_ram@.update(
                offset as int,
                v,
            ),
            old(self).wf() ==> final(self).wf(),
    {
        if self.enable_external_ram && (offset as usize) < self.external_ram.len() {
            self.external_ram.set(offset as usize, v);
        }
    }
}

impl Default for Cartridge {
    /// An empty cartridge slot: no image, a 32 KiB declared size, no
    /// external RAM, bank one selected.
    fn default() -> (r: Self)
        ensures
            r.wf(),
            r.rom@.len() == 0,
            r.external_ram@.len() == 0,
            r.enable_external_ram == false,
    {
        Cartridge {
            rom: Vec::new(),
            title: Vec::new(),
            manufacturer_code: Vec::new(),
            color_support: GameBoyColorSupport::NoColorSupport,
            licensee_code: Vec::new(),
            supports_sgb: SuperGameBoySupport::No,
            cartridge_type: Type::Rom,
            rom_size: 0x8000,
            external_ram_size: 0,
            is_japanese: IsJapanese::No,
            rom_version: 0,
            header_checksum: 0,
            global_checksum: 0,
            external_ram: Vec::new(),
            enable_external_ram: false,
            rom_bank_selected: 1,
            upper_bank_bits: 0,
            advanced_banking_mode: false,
        }
    }
}

} // verus!
