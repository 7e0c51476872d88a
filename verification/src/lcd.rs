use vstd::prelude::*;
use crate::ppu::{ColorIndex, TileAddressingMethod};

verus! {

/// One of the four shades a DMG pixel can take.
#[derive(Clone, Copy, Debug)]
pub enum Color {
    White,
    LightGray,
    DarkGray,
    Black,
}

pub open spec fn spec_color_of(x: int) -> Color {
    if x == 0 {
        Color::White
    } else if x == 1 {
        Color::LightGray
    } else if x == 2 {
        Color::DarkGray
    } else {
        Color::Black
    }
}

impl Color {
    pub fn from_code(x: u8) -> (r: Color)
        requires
            x < 4,
        ensures
            r == spec_color_of(x as int),
    {
        if x == 0 {
            Color::White
        } else if x == 1 {
            Color::LightGray
        } else if x == 2 {
            Color::DarkGray
        } else {
            Color::Black
        }
    }

    pub open spec fn spec_to_u8(self) -> u8 {
        match self {
            Color::White => 0,
            Color::LightGray => 1,
            Color::DarkGray => 2,
            Color::Black => 3,
        }
    }

    pub fn to_u8(self) -> (r: u8)
        ensures
            r == self.spec_to_u8(),
            spec_color_of(r as int) == self,
    {
        match self {
            Color::White => 0,
            Color::LightGray => 1,
            Color::DarkGray => 2,
            Color::Black => 3,
        }
    }
}

impl Default for Color {
    fn default() -> (r: Self)
        ensures
            r matches Color::White,
    {
        Color::White
    }
}

/// A decoded palette register: the shade each two-bit color index maps
/// to.
#[derive(Clone, Copy, Debug, Default)]
pub struct Palette {
    pub color0: Color,
    pub color1: Color,
    pub color2: Color,
    pub color3: Color,
}

impl Palette {
    /// Decodes a palette byte: index `i` maps through bits `2i..2i+1`.
    pub fn from_byte(v: u8) -> (r: Palette)
        ensures
            r.color0 == spec_color_of(v as int % 4),
            r.color1 == spec_color_of((v as int / 4) % 4),
            r.color2 == spec_color_of((v as int / 16) % 4),
            r.color3 == spec_color_of((v as int / 64) % 4),
    {
        Palette {
            color0: Color::from_code(v % 4),
            color1: Color::from_code((v / 4) % 4),
            color2: Color::from_code((v / 16) % 4),
            color3: Color::from_code((v / 64) % 4),
        }
    }

    pub open spec fn spec_to_u8(self) -> int {
        self.color0.spec_to_u8() + self.color1.spec_to_u8() * 4 + self.color2.spec_to_u8() * 16
            + self.color3.spec_to_u8() * 64
    }

    pub fn to_u8(self) -> (r: u8)
        ensures
            r == self.spec_to_u8(),
    {
        self.color0.to_u8() + self.color1.to_u8() * 4 + self.color2.to_u8() * 16 + self.color3.to_u8()
            * 64
    }

    pub open spec fn spec_get_color(self, index: ColorIndex) -> Color {
        match index {
            ColorIndex::Color0 => self.color0,
            ColorIndex::Color1 => self.color1,
            ColorIndex::Color2 => self.color2,
            ColorIndex::Color3 => self.color3,
        }
    }

    #[must_use]
    pub fn get_color(&self, index: &ColorIndex) -> (r: Color)
        ensures
            r == self.spec_get_color(*index),
    {
        match *index {
            ColorIndex::Color0 => self.color0,
            ColorIndex::Color1 => self.color1,
            ColorIndex::Color2 => self.color2,
            ColorIndex::Color3 => self.color3,
        }
    }
}

/// Which of the two 32x32 background maps a layer reads.
#[derive(Clone, Copy, Debug)]
pub enum TileMap {
    From9800,
    From9C00,
}

/// Whether sprites are one tile (8x8) or two tiles (8x16) tall.
#[derive(Clone, Copy, Debug)]
pub enum SpriteSize {
    Small,
    Large,
}

/// The LCD register block behind 0xff40..=0xff4b, the dot position of
/// the scan, and the OAM-DMA engine's progress.
#[derive(Debug)]
pub struct Lcd {
    /// LCDC, stored raw.
    pub control: u8,
    /// STAT: bits 3..=6 as written, bits 0..=2 maintained by the scan.
    pub status: u8,
    pub scroll_y: u8,
    pub scroll_x: u8,
    pub ly: u8,
    pub ly_compare: u8,
    pub dma_start_high_byte: u8,
    pub background_palette: u8,
    pub object_palette_0: u8,
    pub object_palette_1: u8,
    pub window_y: u8,
    pub window_x: u8,
    /// The dot within the line; -80 is the start of OAM scan, 0..160
    /// the visible pixels, 375 the last dot of the line.
    pub lx: i16,
    pub last_stat_interrupt: bool,
    pub dma_running: bool,
    pub dma_low_byte: u8,
}

/// The STAT mode for a scan position: VBlank below the visible lines,
/// else OAM scan, transfer and HBlank by the dot.
pub open spec fn spec_lcd_mode(ly: u8, lx: int) -> u8 {
    if ly >= 144 {
        1
    } else if lx < 0 {
        2
    } else if lx < 160 {
        3
    } else {
        0
    }
}

/// The "stat line": the OR of every enabled STAT interrupt source.
/// A STAT interrupt fires only on this signal's rising edge.
pub open spec fn spec_stat_line(status: u8, ly: u8, ly_compare: u8) -> bool {
    ||| (status / 8) % 2 == 1 && status % 4 == 0
    ||| (status / 16) % 2 == 1 && status % 4 == 1
    ||| (status / 32) % 2 == 1 && status % 4 == 2
    ||| (status / 64) % 2 == 1 && ly == ly_compare
}

/// One dot of the scan as a function: the successor LCD state and
/// whether this dot raised the VBlank and STAT interrupts. This is
/// exactly the relation `Lcd::tick` implements.
pub open spec fn spec_lcd_scan_step(l: Lcd) -> (Lcd, bool, bool) {
    let lx2: i16 = if l.lx < 375 {
        (l.lx + 1) as i16
    } else {
        (-80) as i16
    };
    let ly2: u8 = if l.lx < 375 {
        l.ly
    } else if l.ly == 153 {
        0
    } else {
        (l.ly + 1) as u8
    };
    let vb = l.lx == 375 && l.ly == 143;
    let lyc: int = if ly2 == l.ly_compare {
        4
    } else {
        0
    };
    let status2: u8 = ((l.status / 8) * 8 + lyc + spec_lcd_mode(ly2, lx2 as int)) as u8;
    let line = spec_stat_line(status2, ly2, l.ly_compare);
    let st = line && !l.last_stat_interrupt;
    (
        Lcd { lx: lx2, ly: ly2, status: status2, last_stat_interrupt: line, ..l },
        vb,
        st,
    )
}

/// `n` dots of the scan, folded: the final LCD state and whether any
/// dot raised VBlank or STAT.
pub open spec fn spec_lcd_scan(l: Lcd, n: nat) -> (Lcd, bool, bool)
    decreases n,
{
    if n == 0 {
        (l, false, false)
    } else {
        let stepped = spec_lcd_scan_step(l);
        let rest = spec_lcd_scan(stepped.0, (n - 1) as nat);
        (rest.0, stepped.1 || rest.1, stepped.2 || rest.2)
    }
}

/// Folding one more dot appends a step at the end.
pub proof fn lemma_lcd_scan_snoc(l: Lcd, n: nat)
    ensures
        spec_lcd_scan(l, n + 1) == ({
            let sofar = spec_lcd_scan(l, n);
            let stepped = spec_lcd_scan_step(sofar.0);
            (stepped.0, sofar.1 || stepped.1, sofar.2 || stepped.2)
        }),
    decreases n,
{
    if n == 0 {
        assert(spec_lcd_scan(spec_lcd_scan_step(l).0, 0) == (spec_lcd_scan_step(l).0, false, false));
    } else {
        lemma_lcd_scan_snoc(spec_lcd_scan_step(l).0, (n - 1) as nat);
        assert(spec_lcd_scan(l, n + 1) == ({
            let stepped = spec_lcd_scan_step(l);
            let rest = spec_lcd_scan(stepped.0, n);
            (rest.0, stepped.1 || rest.1, stepped.2 || rest.2)
        }));
    }
}

impl Lcd {
    pub open spec fn wf(self) -> bool {
        &&& -80 <= self.lx < 376
        &&& self.ly <= 153
        &&& self.dma_low_byte <= 160
        &&& (self.dma_running ==> self.dma_low_byte < 160)
        &&& (self.ly >= 144 ==> self.status % 4 == 1)
    }

    /// The register map for reads of `0xff40 + offset`.
    pub open spec fn spec_read(self, offset: u16) -> u8 {
        if offset == 0x0 {
            self.control
        } else if offset == 0x1 {
            self.status
        } else if offset == 0x2 {
            self.scroll_y
        } else if offset == 0x3 {
            self.scroll_x
        } else if offset == 0x4 {
            self.ly
        } else if offset == 0x5 {
            self.ly_compare
        } else if offset == 0x6 {
            self.dma_start_high_byte
        } else if offset == 0x7 {
            self.background_palette
        } else if offset == 0x8 {
            self.object_palette_0
        } else if offset == 0x9 {
            self.object_palette_1
        } else if offset == 0xa {
            self.window_y
        } else {
            self.window_x
        }
    }

    #[must_use]
    pub fn read_u8(&self, offset: u16) -> (r: u8)
        requires
            offset <= 0xb,
        ensures
            r == self.spec_read(offset),
    {
        if offset == 0x0 {
            self.control
        } else if offset == 0x1 {
            self.status
        } else if offset == 0x2 {
            self.scroll_y
        } else if offset == 0x3 {
            self.scroll_x
        } else if offset == 0x4 {
            self.ly
        } else if offset == 0x5 {
            self.ly_compare
        } else if offset == 0x6 {
            self.dma_start_high_byte
        } else if offset == 0x7 {
            self.background_palette
        } else if offset == 0x8 {
            self.object_palette_0
        } else if offset == 0x9 {
            self.object_palette_1
        } else if offset == 0xa {
            self.window_y
        } else {
            self.window_x
        }
    }

    /// A register write. LY is read-only; STAT keeps its mode and
    /// LYC-flag bits against writes; a write of the DMA register
    /// starts a fresh OAM-DMA transfer from `byte << 8`.
    pub fn write_u8(&mut self, offset: u16, byte: u8)
        requires
            offset <= 0xb,
        ensures
            *final(self) == (if offset == 0x0 {
                Lcd { control: byte, ..*old(self) }
            } else if offset == 0x1 {
                Lcd { status: ((byte / 8) * 8 + old(self).status % 8) as u8, ..*old(self) }
            } else if offset == 0x2 {
                Lcd { scroll_y: byte, ..*old(self) }
            } else if offset == 0x3 {
                Lcd { scroll_x: byte, ..*old(self) }
            } else if offset == 0x4 {
                *old(self)
            } else if offset == 0x5 {
                Lcd { ly_compare: byte, ..*old(self) }
            } else if offset == 0x6 {
                Lcd {
                    dma_start_high_byte: byte,
                    dma_low_byte: 0,
                    dma_running: true,
                    ..*old(self)
                }
            } else if offset == 0x7 {
                Lcd { background_palette: byte, ..*old(self) }
            } else if offset == 0x8 {
                Lcd { object_palette_0: byte, ..*old(self) }
            } else if offset == 0x9 {
                Lcd { object_palette_1: byte, ..*old(self) }
            } else if offset == 0xa {
                Lcd { window_y: byte, ..*old(self) }
            } else {
                Lcd { window_x: byte, ..*old(self) }
            }),
            old(self).wf() ==> final(self).wf(),
    {
        if offset == 0x0 {
            self.control = byte;
        } else if offset == 0x1 {
            self.status = (byte / 8) * 8 + self.status % 8;
        } else if offset == 0x2 {
            self.scroll_y = byte;
        } else if offset == 0x3 {
            self.scroll_x = byte;
        } else if offset == 0x4 {
        } else if offset == 0x5 {
            self.ly_compare = byte;
        } else if offset == 0x6 {
            self.dma_start_high_byte = byte;
            self.dma_low_byte = 0;
            self.dma_running = true;
        } else if offset == 0x7 {
            self.background_palette = byte;
        } else if offset == 0x8 {
            self.object_palette_0 = byte;
        } else if offset == 0x9 {
            self.object_palette_1 = byte;
        } else if offset == 0xa {
            self.window_y = byte;
        } else {
            self.window_x = byte;
        }
    }

    /// Advances the scan by one dot: `lx` runs -80..=375 within a
    /// line, `ly` runs 0..=153 over the frame. Returns (vblank, stat):
    /// vblank fires on the dot where `ly` becomes 144; stat fires on
    /// the rising edge of the stat line. STAT's mode and LYC bits are
    /// refreshed.
    pub fn tick(&mut self) -> (r: (bool, bool))
        requires
            old(self).wf(),
        ensures
            final(self).wf(),
            *final(self) == (Lcd {
                lx: final(self).lx,
                ly: final(self).ly,
                status: final(self).status,
                last_stat_interrupt: final(self).last_stat_interrupt,
                ..*old(self)
            }),
            old(self).lx < 375 ==> final(self).lx == old(self).lx + 1 && final(self).ly == old(
                self,
            ).ly,
            old(self).lx == 375 ==> final(self).lx == -80 && final(self).ly == (if old(self).ly
                == 153 {
                0int
            } else {
                old(self).ly + 1
            }),
            r.0 == (old(self).lx == 375 && old(self).ly == 143),
            final(self).status == (old(self).status / 8) * 8 + (if final(self).ly == old(
                self,
            ).ly_compare {
                4int
            } else {
                0int
            }) + spec_lcd_mode(final(self).ly, final(self).lx as int),
            final(self).last_stat_interrupt == spec_stat_line(
                final(self).status,
                final(self).ly,
                old(self).ly_compare,
            ),
            r.1 == (final(self).last_stat_interrupt && !old(self).last_stat_interrupt),
            (*final(self), r.0, r.1) == spec_lcd_scan_step(*old(self)),
    {
        if self.lx < 375 {
            self.lx = self.lx + 1;
        } else {
            self.lx = -80;
            if self.ly == 153 {
                self.ly = 0;
            } else {
                self.ly = self.ly + 1;
            }
        }
        let vblank = self.lx == -80 && self.ly == 144;
        let mode: u8 = if self.ly >= 144 {
            1
        } else if self.lx < 0 {
            2
        } else if self.lx < 160 {
            3
        } else {
            0
        };
        let lyc_flag: u8 = if self.ly == self.ly_compare {
            4
        } else {
            0
        };
        self.status = (self.status / 8) * 8 + lyc_flag + mode;
        let stat_line = ((self.status / 8) % 2 == 1 && self.status % 4 == 0) || ((self.status / 16)
            % 2 == 1 && self.status % 4 == 1) || ((self.status / 32) % 2 == 1 && self.status % 4
            == 2) || ((self.status / 64) % 2 == 1 && self.ly == self.ly_compare);
        let stat_fires = stat_line && !self.last_stat_interrupt;
        self.last_stat_interrupt = stat_line;
        (vblank, stat_fires)
    }

    #[must_use]
    pub fn get_lcd_enable(&self) -> (r: bool)
        ensures
            r == (self.control / 128 == 1),
    {
        self.control / 128 == 1
    }

    #[must_use]
    pub fn get_ly(&self) -> (r: u8)
        ensures
            r == self.ly,
    {
        self.ly
    }

    #[must_use]
    pub fn get_lx(&self) -> (r: i16)
        ensures
            r == self.lx,
    {
        self.lx
    }

    #[must_use]
    pub fn get_scroll_offsets(&self) -> (r: (u8, u8))
        ensures
            r == (self.scroll_x, self.scroll_y),
    {
        (self.scroll_x, self.scroll_y)
    }

    #[must_use]
    pub fn get_background_palette(&self) -> (r: Palette)
        ensures
            r == Palette::spec_from_byte(self.background_palette),
    {
        Palette::from_byte(self.background_palette)
    }

    /// LCDC bit 4: unsigned tile indexing from 0x8000, or signed
    /// indexing around 0x9000.
    #[must_use]
    pub fn get_addressing_mode(&self) -> (r: TileAddressingMethod)
        ensures
            (self.control / 16) % 2 == 1 ==> (r matches TileAddressingMethod::From8000(o) && o == 0),
            (self.control / 16) % 2 == 0 ==> (r matches TileAddressingMethod::From9000(o) && o == 0),
    {
        if (self.control / 16) % 2 == 1 {
            TileAddressingMethod::From8000(0)
        } else {
            TileAddressingMethod::From9000(0)
        }
    }

    /// LCDC bit 3.
    #[must_use]
    pub fn get_background_tile_map(&self) -> (r: TileMap)
        ensures
            (self.control / 8) % 2 == 1 ==> r matches TileMap::From9C00,
            (self.control / 8) % 2 == 0 ==> r matches TileMap::From9800,
    {
        if (self.control / 8) % 2 == 1 {
            TileMap::From9C00
        } else {
            TileMap::From9800
        }
    }

    /// LCDC bit 0.
    #[must_use]
    pub fn get_background_window_priority(&self) -> (r: bool)
        ensures
            r == (self.control % 2 == 1),
    {
        self.control % 2 == 1
    }

    /// LCDC bit 1.
    #[must_use]
    pub fn get_sprite_enable(&self) -> (r: bool)
        ensures
            r == ((self.control / 2) % 2 == 1),
    {
        (self.control / 2) % 2 == 1
    }

    /// LCDC bit 2: set selects the two-tile (8x16) sprites.
    #[must_use]
    pub fn get_sprite_size(&self) -> (r: SpriteSize)
        ensures
            (self.control / 4) % 2 == 1 ==> r matches SpriteSize::Large,
            (self.control / 4) % 2 == 0 ==> r matches SpriteSize::Small,
    {
        if (self.control / 4) % 2 == 1 {
            SpriteSize::Large
        } else {
            SpriteSize::Small
        }
    }

    #[must_use]
    pub fn get_object_palettes(&self) -> (r: (Palette, Palette))
        ensures
            r.0 == Palette::spec_from_byte(self.object_palette_0),
            r.1 == Palette::spec_from_byte(self.object_palette_1),
    {
        (Palette::from_byte(self.object_palette_0), Palette::from_byte(self.object_palette_1))
    }

    /// LCDC bit 5.
    #[must_use]
    pub fn get_window_enable(&self) -> (r: bool)
        ensures
            r == ((self.control / 32) % 2 == 1),
    {
        (self.control / 32) % 2 == 1
    }

    #[must_use]
    pub fn get_window_coords(&self) -> (r: (u8, u8))
        ensures
            r == (self.window_x, self.window_y),
    {
        (self.window_x, self.window_y)
    }

    /// LCDC bit 6.
    #[must_use]
    pub fn get_window_tile_map(&self) -> (r: TileMap)
        ensures
            (self.control / 64) % 2 == 1 ==> r matches TileMap::From9C00,
            (self.control / 64) % 2 == 0 ==> r matches TileMap::From9800,
    {
        if (self.control / 64) % 2 == 1 {
            TileMap::From9C00
        } else {
            TileMap::From9800
        }
    }

    #[must_use]
    pub fn get_dma_running(&self) -> (r: bool)
        ensures
            r == self.dma_running,
    {
        self.dma_running
    }

    /// While a transfer runs, the source and OAM destination of the
    /// next byte to copy.
    #[must_use]
    pub fn get_dma_addresses(&self) -> (r: Option<(u16, u16)>)
        requires
            self.wf(),
        ensures
            self.dma_running ==> r == Option::Some(
                (
                    (self.dma_start_high_byte * 256 + self.dma_low_byte) as u16,
                    (0xfe00 + self.dma_low_byte) as u16,
                ),
            ),
            !self.dma_running ==> r is None,
    {
        if self.dma_running {
            let source = self.dma_start_high_byte as u16 * 256 + self.dma_low_byte as u16;
            let destination = 0xfe00 + self.dma_low_byte as u16;
            Option::Some((source, destination))
        } else {
            Option::None
        }
    }

    /// One DMA byte is done; the transfer ends after 160 bytes.
    pub fn tick_dma(&mut self)
        requires
            old(self).wf(),
            old(self).dma_running,
            old(self).dma_low_byte < 160,
        ensures
            final(self).wf(),
            *final(self) == (Lcd {
                dma_low_byte: (old(self).dma_low_byte + 1) as u8,
                dma_running: old(self).dma_low_byte + 1 < 160,
                ..*old(self)
            }),
    {
        self.dma_low_byte = self.dma_low_byte + 1;
        if self.dma_low_byte == 160 {
            self.dma_running = false;
        }
    }
}

impl Palette {
    pub open spec fn spec_from_byte(v: u8) -> Palette {
        Palette {
            color0: spec_color_of(v as int % 4),
            color1: spec_color_of((v as int / 4) % 4),
            color2: spec_color_of((v as int / 16) % 4),
            color3: spec_color_of((v as int / 64) % 4),
        }
    }
}

impl Default for Lcd {
    /// The register state after boot: LCD on, background on, the scan
    /// at the top of the frame.
    fn default() -> (r: Self)
        ensures
            r.wf(),
            r.control == 0x91,
            r.ly == 0,
            r.lx == -80,
            r.dma_running == false,
    {
        Lcd {
            control: 0x91,
            status: 0x85,
            scroll_y: 0,
            scroll_x: 0,
            ly: 0,
            ly_compare: 0,
            dma_start_high_byte: 0xff,
            background_palette: 0xfc,
            object_palette_0: 0xff,
            object_palette_1: 0xff,
            window_y: 0,
            window_x: 0,
            lx: -80,
            last_stat_interrupt: true,
            dma_running: false,
            dma_low_byte: 0,
        }
    }
}

} // verus!
