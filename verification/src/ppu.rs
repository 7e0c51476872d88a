use vstd::prelude::*;
use crate::lcd::{Color, Lcd, SpriteSize, TileMap};

verus! {

/// A two-bit color index as it sits in tile data, before any palette
/// is applied.
#[derive(Clone, Copy, Debug)]
pub enum ColorIndex {
    Color0,
    Color1,
    Color2,
    Color3,
}

pub open spec fn spec_color_index(x: int) -> ColorIndex {
    if x == 0 {
        ColorIndex::Color0
    } else if x == 1 {
        ColorIndex::Color1
    } else if x == 2 {
        ColorIndex::Color2
    } else {
        ColorIndex::Color3
    }
}

impl ColorIndex {
    #[must_use]
    pub fn new(color: u8) -> (r: Self)
        requires
            color < 4,
        ensures
            r == spec_color_index(color as int),
    {
        if color == 0 {
            ColorIndex::Color0
        } else if color == 1 {
            ColorIndex::Color1
        } else if color == 2 {
            ColorIndex::Color2
        } else {
            ColorIndex::Color3
        }
    }

    pub open spec fn spec_to_u8(self) -> u8 {
        match self {
            ColorIndex::Color0 => 0,
            ColorIndex::Color1 => 1,
            ColorIndex::Color2 => 2,
            ColorIndex::Color3 => 3,
        }
    }

    pub fn to_u8(self) -> (r: u8)
        ensures
            r == self.spec_to_u8(),
    {
        match self {
            ColorIndex::Color0 => 0,
            ColorIndex::Color1 => 1,
            ColorIndex::Color2 => 2,
            ColorIndex::Color3 => 3,
        }
    }
}

impl Default for ColorIndex {
    fn default() -> (r: Self)
        ensures
            r matches ColorIndex::Color0,
    {
        ColorIndex::Color0
    }
}

/// Every bit-pair extracted from tile bytes is below four.
proof fn lemma_tile_pixel_bounds()
    by (bit_vector)
    ensures
        forall|hi: u8, lo: u8, k: u8|
            #[trigger] (((hi >> k) & 1) * 2 + ((lo >> k) & 1)) < 4,
{
}

/// The color index of pixel (x, y) of a tile: row y is the byte pair
/// (lines[2y], lines[2y+1]); bit 7-x of the low byte is the low bit of
/// the index, the same bit of the high byte the high bit.
pub open spec fn spec_tile_pixel(lines: Seq<u8>, x: u8, y: u8) -> int {
    ((lines[2 * y + 1] >> ((7 - x) as u8)) & 1) * 2 + ((lines[2 * y] >> ((7 - x) as u8)) & 1)
}

/// One 8x8 tile: sixteen bytes, two per row.
#[derive(Debug, Default)]
pub struct Tile {
    pub lines: Vec<u8>,
}

impl Tile {
    pub open spec fn wf(self) -> bool {
        self.lines@.len() == 16
    }

    #[must_use]
    pub fn get_color(&self, x: u8, y: u8) -> (r: ColorIndex)
        requires
            x < 8,
            y < 8,
            self.wf(),
        ensures
            r == spec_color_index(spec_tile_pixel(self.lines@, x, y)),
    {
        let bit_index = 7 - x;
        let index = 2 * y as usize;
        let byte1 = self.lines[index];
        let byte2 = self.lines[index + 1];
        let bit1 = (byte1 >> bit_index) & 1;
        let bit2 = (byte2 >> bit_index) & 1;
        proof {
            lemma_tile_pixel_bounds();
        }
        ColorIndex::new(bit2 * 2 + bit1)
    }

    /// The whole tile as 64 color indices, row after row.
    #[must_use]
    pub fn deinterleave(&self) -> (r: Vec<ColorIndex>)
        requires
            self.wf(),
        ensures
            r@.len() == 64,
            forall|i: int|
                0 <= i < 64 ==> r@[i] == spec_color_index(
                    spec_tile_pixel(self.lines@, (i % 8) as u8, (i / 8) as u8),
                ),
    {
        let mut colors: Vec<ColorIndex> = Vec::new();
        let mut y: u8 = 0;
        while y < 8
            invariant
                y <= 8,
                self.wf(),
                colors@.len() == y * 8,
                forall|i: int|
                    0 <= i < y * 8 ==> colors@[i] == spec_color_index(
                        spec_tile_pixel(self.lines@, (i % 8) as u8, (i / 8) as u8),
                    ),
            decreases 8 - y,
        {
            let mut x: u8 = 0;
            while x < 8
                invariant
                    x <= 8,
                    y < 8,
                    self.wf(),
                    colors@.len() == y * 8 + x,
                    forall|i: int|
                        0 <= i < y * 8 + x ==> colors@[i] == spec_color_index(
                            spec_tile_pixel(self.lines@, (i % 8) as u8, (i / 8) as u8),
                        ),
                decreases 8 - x,
            {
                colors.push(self.get_color(x, y));
                x = x + 1;
            }
            y = y + 1;
        }
        colors
    }
}

/// How a tile index from a background map addresses tile data:
/// unsigned from 0x8000, or signed around 0x9000.
#[derive(Clone, Copy, Debug)]
pub enum TileAddressingMethod {
    From8000(u8),
    From9000(i8),
}

/// The byte offset into video RAM where a tile's sixteen bytes start.
pub open spec fn spec_tile_base(method: TileAddressingMethod) -> int {
    match method {
        TileAddressingMethod::From8000(o) => 16 * o,
        TileAddressingMethod::From9000(i) => 0x1000 + 16 * i,
    }
}

impl TileAddressingMethod {
    /// Replaces the tile index, keeping the addressing family; under
    /// signed addressing the byte is read as two's complement.
    pub fn set_offset(&mut self, offset: u8)
        ensures
            old(self) matches TileAddressingMethod::From8000(..) ==> *final(self)
                == TileAddressingMethod::From8000(offset),
            old(self) matches TileAddressingMethod::From9000(..) ==> *final(self)
                == TileAddressingMethod::From9000(crate::instruction::spec_make_i8(offset)),
    {
        match *self {
            TileAddressingMethod::From8000(..) => {
                *self = TileAddressingMethod::From8000(offset);
            },
            TileAddressingMethod::From9000(..) => {
                *self = TileAddressingMethod::From9000(crate::instruction::make_i8(offset));
            },
        }
    }
}

/// The 8 KiB of video RAM: three tile blocks at 0x0000, 0x0800 and
/// 0x1000, and the two background maps at 0x1800 and 0x1c00 (offsets
/// from 0x8000).
#[derive(Debug)]
pub struct VideoRam {
    pub data: Vec<u8>,
}

/// Where a background map starts in video RAM.
pub open spec fn spec_map_base(map: TileMap) -> int {
    match map {
        TileMap::From9800 => 0x1800,
        TileMap::From9C00 => 0x1c00,
    }
}

impl VideoRam {
    pub open spec fn wf(self) -> bool {
        self.data@.len() == 0x2000
    }

    #[must_use]
    pub fn read(&self, offset: u16) -> (r: u8)
        requires
            offset < 0x2000,
            self.wf(),
        ensures
            r == self.data@[offset as int],
    {
        self.data[offset as usize]
    }

    pub fn write(&mut self, offset: u16, byte: u8)
        requires
            offset < 0x2000,
            old(self).wf(),
        ensures
            final(self).wf(),
            final(self).data@ == old(self).data@.update(offset as int, byte),
    {
        self.data.set(offset as usize, byte);
    }

    /// Copies out the sixteen bytes of the addressed tile.
    #[must_use]
    pub fn read_tile(&self, addressing_method: TileAddressingMethod) -> (r: Tile)
        requires
            self.wf(),
        ensures
            r.wf(),
            r.lines@ == self.data@.subrange(
                spec_tile_base(addressing_method),
                spec_tile_base(addressing_method) + 16,
            ),
    {
        let base: usize = match addressing_method {
            TileAddressingMethod::From8000(o) => 16 * o as usize,
            TileAddressingMethod::From9000(i) => (0x1000 + 16 * i as i32) as usize,
        };
        let mut lines: Vec<u8> = Vec::new();
        let mut k: usize = 0;
        while k < 16
            invariant
                k <= 16,
                self.wf(),
                base + 16 <= 0x2000,
                base == spec_tile_base(addressing_method),
                lines@.len() == k,
                forall|i: int| 0 <= i < k ==> lines@[i] == self.data@[base + i],
            decreases 16 - k,
        {
            lines.push(self.data[base + k]);
            k = k + 1;
        }
        let tile = Tile { lines };
        proof {
            assert(tile.lines@ =~= self.data@.subrange(base as int, base as int + 16));
        }
        tile
    }
}

impl Default for VideoRam {
    fn default() -> (r: Self)
        ensures
            r.wf(),
            forall|i: int| 0 <= i < 0x2000 ==> r.data@[i] == 0,
    {
        let mut data: Vec<u8> = Vec::new();
        let mut i: usize = 0;
        while i < 0x2000
            invariant
                i <= 0x2000,
                data@.len() == i,
                forall|j: int| 0 <= j < i ==> data@[j] == 0,
            decreases 0x2000 - i,
        {
            data.push(0);
            i = i + 1;
        }
        VideoRam { data }
    }
}

/// Which of the two object palettes a sprite uses.
#[derive(Clone, Copy, Debug)]
pub enum SpritePaletteNumber {
    Palette0,
    Palette1,
}

impl SpritePaletteNumber {
    pub fn new(v: u8) -> (r: Self)
        requires
            v < 2,
        ensures
            v == 0 ==> r matches SpritePaletteNumber::Palette0,
            v == 1 ==> r matches SpritePaletteNumber::Palette1,
    {
        if v == 0 {
            SpritePaletteNumber::Palette0
        } else {
            SpritePaletteNumber::Palette1
        }
    }
}

impl Default for SpritePaletteNumber {
    fn default() -> (r: Self)
        ensures
            r matches SpritePaletteNumber::Palette0,
    {
        SpritePaletteNumber::Palette0
    }
}

/// The video-RAM bank bit of a sprite (fixed to bank zero on the
/// DMG; decoded for completeness).
#[derive(Clone, Copy, Debug)]
pub enum SpriteVideoRamBank {
    Bank0,
    Bank1,
}

impl SpriteVideoRamBank {
    pub fn new(v: u8) -> (r: Self)
        requires
            v < 2,
        ensures
            v == 0 ==> r matches SpriteVideoRamBank::Bank0,
            v == 1 ==> r matches SpriteVideoRamBank::Bank1,
    {
        if v == 0 {
            SpriteVideoRamBank::Bank0
        } else {
            SpriteVideoRamBank::Bank1
        }
    }
}

impl Default for SpriteVideoRamBank {
    fn default() -> (r: Self)
        ensures
            r matches SpriteVideoRamBank::Bank0,
    {
        SpriteVideoRamBank::Bank0
    }
}

/// A sprite's attribute byte, decoded.
#[derive(Clone, Copy, Debug, Default)]
pub struct SpriteAttributes {
    pub behind_background: bool,
    pub flip_y: bool,
    pub flip_x: bool,
    pub gb_palette_number: SpritePaletteNumber,
    pub cgb_vram_bank: SpriteVideoRamBank,
    pub cgb_palette_number: u8,
}

/// The decoding of a sprite attribute byte.
pub open spec fn spec_sprite_attributes(v: u8) -> SpriteAttributes {
    SpriteAttributes {
        behind_background: v / 128 == 1,
        flip_y: (v / 64) % 2 == 1,
        flip_x: (v / 32) % 2 == 1,
        gb_palette_number: if (v / 16) % 2 == 0 {
            SpritePaletteNumber::Palette0
        } else {
            SpritePaletteNumber::Palette1
        },
        cgb_vram_bank: if (v / 8) % 2 == 0 {
            SpriteVideoRamBank::Bank0
        } else {
            SpriteVideoRamBank::Bank1
        },
        cgb_palette_number: (v % 4) as u8,
    }
}

impl SpriteAttributes {
    pub fn from_byte(v: u8) -> (r: Self)
        ensures
            r == spec_sprite_attributes(v),
    {
        SpriteAttributes {
            behind_background: v / 128 == 1,
            flip_y: (v / 64) % 2 == 1,
            flip_x: (v / 32) % 2 == 1,
            gb_palette_number: SpritePaletteNumber::new((v / 16) % 2),
            cgb_vram_bank: SpriteVideoRamBank::new((v / 8) % 2),
            cgb_palette_number: v % 4,
        }
    }
}

/// One OAM entry, decoded, together with the OAM slot it came from
/// (the slot breaks priority ties between sprites at the same x).
#[derive(Clone, Copy, Debug, Default)]
pub struct Sprite {
    pub y: u8,
    pub x: u8,
    pub tile_number: u8,
    pub attributes: SpriteAttributes,
    pub oam_index: u8,
}

/// Object attribute memory: the forty 4-byte sprite slots, kept as
/// raw bytes so CPU reads give back exactly what was written.
#[derive(Debug)]
pub struct ObjectAttributeMemory {
    pub data: Vec<u8>,
}

impl ObjectAttributeMemory {
    pub open spec fn wf(self) -> bool {
        self.data@.len() == 160
    }

    #[must_use]
    pub fn read(&self, offset: u16) -> (r: u8)
        requires
            offset < 160,
            self.wf(),
        ensures
            r == self.data@[offset as int],
    {
        self.data[offset as usize]
    }

    pub fn write(&mut self, offset: u16, byte: u8)
        requires
            offset < 160,
            old(self).wf(),
        ensures
            final(self).wf(),
            final(self).data@ == old(self).data@.update(offset as int, byte),
    {
        self.data.set(offset as usize, byte);
    }

    /// Decodes the sprite in slot `index`.
    #[must_use]
    pub fn get_sprite(&self, index: u8) -> (r: Sprite)
        requires
            index < 40,
            self.wf(),
        ensures
            r == spec_sprite_at(self.data@, index as int),
    {
        let base = 4 * index as usize;
        Sprite {
            y: self.data[base],
            x: self.data[base + 1],
            tile_number: self.data[base + 2],
            attributes: SpriteAttributes::from_byte(self.data[base + 3]),
            oam_index: index,
        }
    }
}

impl Default for ObjectAttributeMemory {
    fn default() -> (r: Self)
        ensures
            r.wf(),
    {
        let mut data: Vec<u8> = Vec::new();
        let mut i: usize = 0;
        while i < 160
            invariant
                i <= 160,
                data@.len() == i,
            decreases 160 - i,
        {
            data.push(0);
            i = i + 1;
        }
        ObjectAttributeMemory { data }
    }
}

/// The decoded sprite sitting in OAM slot `slot`.
pub open spec fn spec_sprite_at(oam: Seq<u8>, slot: int) -> Sprite {
    Sprite {
        y: oam[4 * slot],
        x: oam[4 * slot + 1],
        tile_number: oam[4 * slot + 2],
        attributes: spec_sprite_attributes(oam[4 * slot + 3]),
        oam_index: slot as u8,
    }
}

/// The sprites (in slot order) whose vertical span covers line `y`,
/// capped at the hardware's ten per line; `slot` scans upward from
/// the given index with `room` cache places left.
pub open spec fn spec_line_sprites(
    oam: Seq<u8>,
    y: u8,
    height: int,
    slot: int,
    room: int,
) -> Seq<Sprite>
    decreases 40 - slot,
{
    if slot >= 40 || room <= 0 {
        Seq::empty()
    } else {
        let sprite_y = oam[4 * slot] - 16;
        if sprite_y <= y < sprite_y + height {
            seq![spec_sprite_at(oam, slot)] + spec_line_sprites(oam, y, height, slot + 1, room - 1)
        } else {
            spec_line_sprites(oam, y, height, slot + 1, room)
        }
    }
}

/// The height a sprite-size selection gives.
pub open spec fn spec_sprite_height(sprite_size: SpriteSize) -> int {
    match sprite_size {
        SpriteSize::Small => 8,
        SpriteSize::Large => 16,
    }
}

/// Sprites ordered by priority: lowest x first, the earlier OAM slot
/// first among equals.
pub open spec fn spec_sprite_order(a: Sprite, b: Sprite) -> bool {
    a.x < b.x || (a.x == b.x && a.oam_index <= b.oam_index)
}

/// The picture processing unit: video RAM, OAM, the double-buffered
/// framebuffer and the per-line sprite cache.
#[derive(Debug)]
pub struct PictureProcessingUnit {
    /// The transfer-mode lock: while the LCD pushes pixels, CPU reads
    /// of video RAM and OAM see 0xff and CPU writes are dropped.
    pub in_use_by_lcd: bool,
    /// The OAM-scan lock: while the LCD scans sprites, OAM alone is
    /// held the same way.
    pub oam_scan_lock: bool,
    pub video_ram: VideoRam,
    pub object_attribute_memory: ObjectAttributeMemory,
    pub framebuffer1: Vec<Color>,
    pub framebuffer2: Vec<Color>,
    pub framebuffer_selector: bool,
    pub sprites_this_line: Vec<Sprite>,
}

/// The background or window pixel at map coordinates (x, y): the map
/// names a tile, the addressing mode finds its bytes, and the pixel
/// within the tile is (x mod 8, y mod 8).
pub open spec fn spec_map_pixel(
    vram: VideoRam,
    x: u8,
    y: u8,
    map: TileMap,
    mode: TileAddressingMethod,
) -> ColorIndex {
    let tile_index = vram.data@[spec_map_base(map) + 32 * (y / 8) + (x / 8)];
    let resolved = match mode {
        TileAddressingMethod::From8000(..) => TileAddressingMethod::From8000(tile_index),
        TileAddressingMethod::From9000(..) => TileAddressingMethod::From9000(
            crate::instruction::spec_make_i8(tile_index),
        ),
    };
    let lines = vram.data@.subrange(spec_tile_base(resolved), spec_tile_base(resolved) + 16);
    spec_color_index(spec_tile_pixel(lines, (x % 8) as u8, (y % 8) as u8))
}

/// The color the background layer paints at screen pixel (x, y):
/// the scrolled map pixel through BGP, or white when LCDC bit 0
/// disables the background.
pub open spec fn spec_background_pixel(vram: VideoRam, l: Lcd, x: u8, y: u8) -> Color {
    if l.control % 2 == 1 {
        let ci = spec_map_pixel(
            vram,
            ((l.scroll_x + x) % 256) as u8,
            ((l.scroll_y + y) % 256) as u8,
            if (l.control / 8) % 2 == 1 {
                TileMap::From9C00
            } else {
                TileMap::From9800
            },
            if (l.control / 16) % 2 == 1 {
                TileAddressingMethod::From8000(0)
            } else {
                TileAddressingMethod::From9000(0)
            },
        );
        crate::lcd::Palette::spec_from_byte(l.background_palette).spec_get_color(ci)
    } else {
        Color::White
    }
}

/// The color the background and window layers together paint at
/// screen pixel (x, y): the window pixel where the window is enabled
/// and covers it, else the background pixel.
pub open spec fn spec_bg_window_pixel(vram: VideoRam, l: Lcd, x: u8, y: u8) -> Color {
    let wx = if l.window_x >= 7 {
        (l.window_x - 7) as u8
    } else {
        0
    };
    if l.control % 2 == 1 && (l.control / 32) % 2 == 1 && x >= wx && y >= l.window_y {
        let ci = spec_map_pixel(
            vram,
            (x - wx) as u8,
            (y - l.window_y) as u8,
            if (l.control / 64) % 2 == 1 {
                TileMap::From9C00
            } else {
                TileMap::From9800
            },
            if (l.control / 16) % 2 == 1 {
                TileAddressingMethod::From8000(0)
            } else {
                TileAddressingMethod::From9000(0)
            },
        );
        crate::lcd::Palette::spec_from_byte(l.background_palette).spec_get_color(ci)
    } else {
        spec_background_pixel(vram, l, x, y)
    }
}

/// The per-dot frame claim: if the `k`-th dot from scan position
/// `base` lands on a visible pixel, the framebuffer holds the
/// background color there.
pub open spec fn spec_dot_pixel_claim(
    fb: Seq<Color>,
    vram: VideoRam,
    l: Lcd,
    base: int,
    k: int,
) -> bool {
    let p = base + k;
    let py = p / 456;
    let px = p % 456 - 80;
    py < 144 && 0 <= px < 160 ==> fb[py * 160 + px] == spec_bg_window_pixel(
        vram,
        l,
        px as u8,
        py as u8,
    )
}

/// A sprite tile's pixel at (x mod 8, y mod 8), honoring the flips.
pub open spec fn spec_sprite_pixel(
    vram: VideoRam,
    x: u8,
    y: u8,
    tile_index: u8,
    flip_x: bool,
    flip_y: bool,
) -> ColorIndex {
    let tx = if flip_x {
        (7 - (x % 8)) as u8
    } else {
        (x % 8) as u8
    };
    let ty = if flip_y {
        (7 - (y % 8)) as u8
    } else {
        (y % 8) as u8
    };
    let base = spec_tile_base(TileAddressingMethod::From8000(tile_index));
    spec_color_index(spec_tile_pixel(vram.data@.subrange(base, base + 16), tx, ty))
}

impl PictureProcessingUnit {
    pub open spec fn wf(self) -> bool {
        &&& self.video_ram.wf()
        &&& self.object_attribute_memory.wf()
        &&& self.framebuffer1@.len() == 160 * 144
        &&& self.framebuffer2@.len() == 160 * 144
        &&& self.sprites_this_line@.len() <= 10
    }

    /// The buffer currently being drawn into.
    pub open spec fn spec_current_framebuffer(self) -> Seq<Color> {
        if self.framebuffer_selector {
            self.framebuffer2@
        } else {
            self.framebuffer1@
        }
    }

    /// CPU reads of video RAM; 0xff while the LCD owns it.
    #[must_use]
    pub fn read_video_ram(&self, offset: u16) -> (r: u8)
        requires
            offset < 0x2000,
            self.wf(),
        ensures
            r == (if self.in_use_by_lcd {
                0xffu8
            } else {
                self.video_ram.data@[offset as int]
            }),
    {
        if self.in_use_by_lcd {
            return 0xff;
        }
        self.video_ram.read(offset)
    }

    /// CPU writes of video RAM; dropped while the LCD owns it.
    pub fn write_video_ram(&mut self, offset: u16, byte: u8)
        requires
            offset < 0x2000,
            old(self).wf(),
        ensures
            final(self).wf(),
            old(self).in_use_by_lcd ==> *final(self) == *old(self),
            !old(self).in_use_by_lcd ==> *final(self) == (PictureProcessingUnit {
                video_ram: VideoRam {
                    data: final(self).video_ram.data,
                },
                ..*old(self)
            }) && final(self).video_ram.data@ == old(self).video_ram.data@.update(
                offset as int,
                byte,
            ),
    {
        if !self.in_use_by_lcd {
            self.video_ram.write(offset, byte);
        }
    }

    /// CPU reads of OAM; 0xff while the LCD owns it (either lock).
    #[must_use]
    pub fn read_object_attribute_memory(&self, offset: u16) -> (r: u8)
        requires
            offset < 160,
            self.wf(),
        ensures
            r == (if self.in_use_by_lcd || self.oam_scan_lock {
                0xffu8
            } else {
                self.object_attribute_memory.data@[offset as int]
            }),
    {
        if self.in_use_by_lcd || self.oam_scan_lock {
            return 0xff;
        }
        self.object_attribute_memory.read(offset)
    }

    /// CPU writes of OAM; dropped while the LCD owns it (either
    /// lock).
    pub fn write_object_attribute_memory(&mut self, offset: u16, byte: u8)
        requires
            offset < 160,
            old(self).wf(),
        ensures
            final(self).wf(),
            old(self).in_use_by_lcd || old(self).oam_scan_lock ==> *final(self) == *old(self),
            !(old(self).in_use_by_lcd || old(self).oam_scan_lock) ==> *final(self)
                == (PictureProcessingUnit {
                object_attribute_memory: ObjectAttributeMemory {
                    data: final(self).object_attribute_memory.data,
                },
                ..*old(self)
            }) && final(self).object_attribute_memory.data@ == old(self).object_attribute_memory.data@.update(offset as int, byte),
    {
        if !(self.in_use_by_lcd || self.oam_scan_lock) {
            self.object_attribute_memory.write(offset, byte);
        }
    }

    pub fn set_in_use_by_lcd(&mut self, in_use: bool)
        ensures
            *final(self) == (PictureProcessingUnit { in_use_by_lcd: in_use, ..*old(self) }),
            old(self).wf() ==> final(self).wf(),
    {
        self.in_use_by_lcd = in_use;
    }

    /// The background/window pixel for screen-space map coordinates
    /// (x, y).
    #[must_use]
    pub fn get_color_at_pixel_using_tilemap(
        &self,
        x: u8,
        y: u8,
        selected_map: TileMap,
        addressing_mode: TileAddressingMethod,
    ) -> (r: ColorIndex)
        requires
            self.wf(),
        ensures
            r == spec_map_pixel(self.video_ram, x, y, selected_map, addressing_mode),
    {
        let map_base: u16 = match selected_map {
            TileMap::From9800 => 0x1800,
            TileMap::From9C00 => 0x1c00,
        };
        let map_x = x / 8;
        let map_y = y / 8;
        let tile_index = self.video_ram.read(map_base + 32 * map_y as u16 + map_x as u16);
        let mut resolved = addressing_mode;
        resolved.set_offset(tile_index);
        let tile = self.video_ram.read_tile(resolved);
        tile.get_color(x % 8, y % 8)
    }

    /// The pixel of a sprite tile, honoring the flips. Sprites always
    /// address tiles unsigned from 0x8000.
    #[must_use]
    pub fn get_color_at_pixel_for_sprite(
        &self,
        x: u8,
        y: u8,
        tile_index: u8,
        flip_x: bool,
        flip_y: bool,
    ) -> (r: ColorIndex)
        requires
            self.wf(),
        ensures
            r == spec_sprite_pixel(self.video_ram, x, y, tile_index, flip_x, flip_y),
    {
        let tile = self.video_ram.read_tile(TileAddressingMethod::From8000(tile_index));
        let tile_x = if flip_x {
            7 - (x % 8)
        } else {
            x % 8
        };
        let tile_y = if flip_y {
            7 - (y % 8)
        } else {
            y % 8
        };
        tile.get_color(tile_x, tile_y)
    }

    /// Rebuilds the per-line sprite cache: scans OAM in slot order,
    /// keeps at most ten sprites whose vertical span covers line `y`,
    /// and orders them by priority (lowest x first, earlier slot
    /// first among equals).
    pub fn get_sprites_for_line(&mut self, y: u8, sprite_size: SpriteSize)
        requires
            old(self).wf(),
        ensures
            final(self).wf(),
            *final(self) == (PictureProcessingUnit {
                sprites_this_line: final(self).sprites_this_line,
                ..*old(self)
            }),
            forall|i: int, j: int|
                0 <= i < j < final(self).sprites_this_line@.len() ==> spec_sprite_order(
                    final(self).sprites_this_line@[i],
                    final(self).sprites_this_line@[j],
                ),
            final(self).sprites_this_line@.to_multiset() == spec_line_sprites(
                old(self).object_attribute_memory.data@,
                y,
                spec_sprite_height(sprite_size),
                0,
                10,
            ).to_multiset(),
    {
        broadcast use vstd::seq_lib::to_multiset_insert, vstd::seq_lib::to_multiset_build;

        let height: i32 = match sprite_size {
            SpriteSize::Small => 8,
            SpriteSize::Large => 16,
        };
        self.sprites_this_line = Vec::new();
        let ghost mut taken: Seq<Sprite> = Seq::empty();
        proof {
            assert(Seq::<Sprite>::empty().to_multiset() =~= self.sprites_this_line@.to_multiset());
            assert(taken + spec_line_sprites(
                self.object_attribute_memory.data@,
                y,
                height as int,
                0,
                10,
            ) =~= spec_line_sprites(self.object_attribute_memory.data@, y, height as int, 0, 10));
        }
        let mut index: u8 = 0;
        while index < 40 && self.sprites_this_line.len() < 10
            invariant
                index <= 40,
                taken.len() <= 10,
                height == spec_sprite_height(sprite_size),
                spec_line_sprites(
                    old(self).object_attribute_memory.data@,
                    y,
                    height as int,
                    0,
                    10,
                ) == taken + spec_line_sprites(
                    old(self).object_attribute_memory.data@,
                    y,
                    height as int,
                    index as int,
                    10 - taken.len(),
                ),
                self.sprites_this_line@.to_multiset() == taken.to_multiset(),
                self.sprites_this_line@.len() == taken.len(),
                self.wf(),
                self.in_use_by_lcd == old(self).in_use_by_lcd,
                self.oam_scan_lock == old(self).oam_scan_lock,
                self.video_ram == old(self).video_ram,
                self.object_attribute_memory == old(self).object_attribute_memory,
                self.framebuffer1 == old(self).framebuffer1,
                self.framebuffer2 == old(self).framebuffer2,
                self.framebuffer_selector == old(self).framebuffer_selector,
                self.sprites_this_line@.len() <= 10,
                8 <= height <= 16,
                forall|i: int|
                    0 <= i < self.sprites_this_line@.len()
                        ==> #[trigger] self.sprites_this_line@[i].oam_index < index,
                forall|i: int, j: int|
                    0 <= i < j < self.sprites_this_line@.len() ==> spec_sprite_order(
                        self.sprites_this_line@[i],
                        self.sprites_this_line@[j],
                    ),
            decreases 40 - index,
        {
            let object = self.object_attribute_memory.get_sprite(index);
            let sprite_y: i32 = object.y as i32 - 16;
            let y_i32 = y as i32;
            let should_be_drawn = sprite_y <= y_i32 && y_i32 < sprite_y + height;
            proof {
                let oam = old(self).object_attribute_memory.data@;
                let rest = spec_line_sprites(oam, y, height as int, index as int, 10 - taken.len());
                if should_be_drawn && taken.len() < 10 {
                    assert(rest =~= seq![spec_sprite_at(oam, index as int)] + spec_line_sprites(
                        oam,
                        y,
                        height as int,
                        index + 1,
                        10 - taken.len() - 1,
                    ));
                    assert((taken + rest) =~= (taken.push(spec_sprite_at(oam, index as int))
                        + spec_line_sprites(
                        oam,
                        y,
                        height as int,
                        index + 1,
                        10 - taken.len() - 1,
                    )));
                } else if !should_be_drawn {
                    assert(rest =~= spec_line_sprites(
                        oam,
                        y,
                        height as int,
                        index + 1,
                        10 - taken.len(),
                    ));
                }
            }
            if should_be_drawn {
                let mut pos: usize = 0;
                while pos < self.sprites_this_line.len()
                    && self.sprites_this_line[pos].x <= object.x
                    invariant
                        pos <= self.sprites_this_line@.len(),
                        forall|i: int|
                            0 <= i < pos ==> #[trigger] self.sprites_this_line@[i].x <= object.x,
                    decreases self.sprites_this_line@.len() - pos,
                {
                    pos = pos + 1;
                }
                proof {
                    let cache = self.sprites_this_line@;
                    assert(forall|i: int|
                        0 <= i < pos ==> spec_sprite_order(#[trigger] cache[i], object));
                    assert forall|j: int| pos <= j < cache.len() implies spec_sprite_order(
                        object,
                        #[trigger] cache[j],
                    ) by {
                        assert(cache[pos as int].x > object.x);
                        if j > pos {
                            assert(spec_sprite_order(cache[pos as int], cache[j]));
                        }
                    }
                    cache.insert_ensures(pos as int, object);
                }
                let ghost cache_before = self.sprites_this_line@;
                self.sprites_this_line.insert(pos, object);
                proof {
                    vstd::seq_lib::to_multiset_insert(cache_before, pos as int, object);
                    vstd::seq_lib::to_multiset_build(taken, object);
                    taken = taken.push(object);
                    assert(self.sprites_this_line@.to_multiset() =~= taken.to_multiset());
                }
            }
            index = index + 1;
        }
        proof {
            let oam = old(self).object_attribute_memory.data@;
            assert(spec_line_sprites(oam, y, height as int, index as int, 10 - taken.len())
                =~= Seq::<Sprite>::empty());
            assert(taken + Seq::<Sprite>::empty() =~= taken);
        }
    }

    /// Claims video RAM and OAM for the LCD according to the scan
    /// position: both during pixel transfer, OAM alone during the OAM
    /// scan, nothing during the blanking intervals.
    fn set_scan_locks(&mut self, lcd: &Lcd)
        ensures
            *final(self) == (PictureProcessingUnit {
                in_use_by_lcd: lcd.ly < 144 && 0 <= lcd.lx < 160,
                oam_scan_lock: lcd.ly < 144 && lcd.lx < 0,
                ..*old(self)
            }),
            old(self).wf() ==> final(self).wf(),
    {
        let visible = lcd.get_ly() < 144;
        let lx = lcd.get_lx();
        self.in_use_by_lcd = visible && 0 <= lx && lx < 160;
        self.oam_scan_lock = visible && lx < 0;
    }

    /// Paints the sprite layer's contribution to pixel (x, y): the
    /// first cached sprite covering x whose pixel is opaque and whose
    /// priority allows it overwrites the pixel; otherwise nothing
    /// moves.
    #[verifier::rlimit(100)]
    #[verifier::spinoff_prover]
    fn composite_sprites(&mut self, lcd: &Lcd, x: u8, y: u8, bg_color_index_was_zero: bool)
        requires
            old(self).wf(),
            lcd.wf(),
            x < 160,
            y < 144,
        ensures
            final(self).wf(),
            *final(self) == (PictureProcessingUnit {
                framebuffer1: final(self).framebuffer1,
                framebuffer2: final(self).framebuffer2,
                ..*old(self)
            }),
            final(self).spec_current_framebuffer().len() == old(self).spec_current_framebuffer().len(),
            forall|i: int|
                0 <= i < old(self).spec_current_framebuffer().len() && i != y * 160 + x
                    ==> final(self).spec_current_framebuffer()[i] == old(self).spec_current_framebuffer()[i],
    {
        let sprite_size = lcd.get_sprite_size();
        let mut si: usize = 0;
        while si < self.sprites_this_line.len()
            invariant
                si <= self.sprites_this_line@.len(),
                self.wf(),
                lcd.wf(),
                x < 160,
                y < 144,
                *self == (PictureProcessingUnit {
                    framebuffer1: self.framebuffer1,
                    framebuffer2: self.framebuffer2,
                    ..*old(self)
                }),
                self.spec_current_framebuffer().len() == old(self).spec_current_framebuffer().len(),
                forall|i: int|
                    0 <= i < old(self).spec_current_framebuffer().len() && i != y * 160
                        + x ==> self.spec_current_framebuffer()[i] == old(self).spec_current_framebuffer()[i],
            decreases self.sprites_this_line@.len() - si,
        {
            let object = self.sprites_this_line[si];
            let sprite_y: i32 = object.y as i32 - 16;
            let sprite_x: i32 = object.x as i32 - 8;
            let x_i32 = x as i32;
            let y_i32 = y as i32;

            let in_span = sprite_x <= x_i32 && x_i32 < sprite_x + 8;
            let visible = !object.attributes.behind_background
                || bg_color_index_was_zero;
            if in_span && visible {
                let tile_x = (x_i32 - sprite_x) as u8;
                let tile_y = (y_i32 - sprite_y) as u8;
                let color_index = match sprite_size {
                    SpriteSize::Small => self.get_color_at_pixel_for_sprite(
                        tile_x,
                        tile_y,
                        object.tile_number,
                        object.attributes.flip_x,
                        object.attributes.flip_y,
                    ),
                    SpriteSize::Large => {
                        // Two-tile sprites: the hardware forces the
                        // tile index's low bit to pick the half.
                        let temp_tile_index = if tile_y > 7 {
                            (object.tile_number / 2) * 2 + 1
                        } else {
                            (object.tile_number / 2) * 2
                        };
                        let tile_index = if object.attributes.flip_y {
                            if temp_tile_index % 2 == 0 {
                                temp_tile_index + 1
                            } else {
                                temp_tile_index - 1
                            }
                        } else {
                            temp_tile_index
                        };
                        self.get_color_at_pixel_for_sprite(
                            tile_x,
                            tile_y,
                            tile_index,
                            object.attributes.flip_x,
                            object.attributes.flip_y,
                        )
                    },
                };
                if !matches!(color_index, ColorIndex::Color0) {
                    let (obj_pal0, obj_pal1) = lcd.get_object_palettes();
                    let palette = match object.attributes.gb_palette_number {
                        SpritePaletteNumber::Palette0 => obj_pal0,
                        SpritePaletteNumber::Palette1 => obj_pal1,
                    };
                    let color = palette.get_color(&color_index);
                    self.write_to_framebuffer(x as usize, y as usize, color);
                    break;
                }
            }
            si = si + 1;
        }
    }

    /// Paints the window layer's contribution to pixel (x, y) when
    /// the window is enabled and covers it; returns whether the pixel
    /// below any sprite now carries color index zero.
    #[verifier::rlimit(100)]
    #[verifier::spinoff_prover]
    fn composite_window(
        &mut self,
        lcd: &Lcd,
        x: u8,
        y: u8,
        bg_color_index_was_zero: bool,
        bg_window_priority: bool,
    ) -> (r: bool)
        requires
            old(self).wf(),
            lcd.wf(),
            x < 160,
            y < 144,
        ensures
            final(self).wf(),
            *final(self) == (PictureProcessingUnit {
                framebuffer1: final(self).framebuffer1,
                framebuffer2: final(self).framebuffer2,
                ..*old(self)
            }),
            final(self).spec_current_framebuffer().len() == old(self).spec_current_framebuffer().len(),
            forall|i: int|
                0 <= i < old(self).spec_current_framebuffer().len() && i != y * 160 + x
                    ==> final(self).spec_current_framebuffer()[i] == old(self).spec_current_framebuffer()[i],
            (lcd.control / 32) % 2 == 0 ==> *final(self) == *old(self) && r
                == bg_color_index_was_zero,
            bg_window_priority == (lcd.control % 2 == 1) ==> final(self).spec_current_framebuffer()[y * 160 + x] == ({
                let wx = if lcd.window_x >= 7 {
                    (lcd.window_x - 7) as u8
                } else {
                    0
                };
                if lcd.control % 2 == 1 && (lcd.control / 32) % 2 == 1 && x >= wx && y
                    >= lcd.window_y {
                    crate::lcd::Palette::spec_from_byte(lcd.background_palette).spec_get_color(
                        spec_map_pixel(
                            old(self).video_ram,
                            (x - wx) as u8,
                            (y - lcd.window_y) as u8,
                            if (lcd.control / 64) % 2 == 1 {
                                TileMap::From9C00
                            } else {
                                TileMap::From9800
                            },
                            if (lcd.control / 16) % 2 == 1 {
                                TileAddressingMethod::From8000(0)
                            } else {
                                TileAddressingMethod::From9000(0)
                            },
                        ),
                    )
                } else {
                    old(self).spec_current_framebuffer()[y * 160 + x]
                }
            }),
    {
        let addressing_mode = lcd.get_addressing_mode();
        let palette = lcd.get_background_palette();
        let (window_x_raw, window_y) = lcd.get_window_coords();
        let window_x = if window_x_raw >= 7 {
            window_x_raw - 7
        } else {
            0
        };
        let window_tile_map = lcd.get_window_tile_map();
        let window_enable = lcd.get_window_enable();

        if bg_window_priority && window_enable && x >= window_x && y >= window_y {
            let win_pos_x = x - window_x;
            let win_pos_y = y - window_y;
            let win_color = self.get_color_at_pixel_using_tilemap(
                win_pos_x,
                win_pos_y,
                window_tile_map,
                addressing_mode,
            );
            let color = palette.get_color(&win_color);
            self.write_to_framebuffer(x as usize, y as usize, color);
            matches!(win_color, ColorIndex::Color0)
        } else {
            bg_color_index_was_zero
        }
    }

    /// Composites one visible dot: paints pixel (x, y) of the buffer
    /// being drawn from the background, window and cached sprites,
    /// and touches nothing else. With the window and sprites disabled
    /// the painted color is exactly the background layer's.
    #[verifier::rlimit(100)]
    #[verifier::spinoff_prover]
    fn composite_dot(&mut self, lcd: &Lcd, x: u8, y: u8)
        requires
            old(self).wf(),
            lcd.wf(),
            x < 160,
            y < 144,
        ensures
            final(self).wf(),
            *final(self) == (PictureProcessingUnit {
                framebuffer1: final(self).framebuffer1,
                framebuffer2: final(self).framebuffer2,
                ..*old(self)
            }),
            final(self).spec_current_framebuffer().len() == old(self).spec_current_framebuffer().len(),
            forall|i: int|
                0 <= i < old(self).spec_current_framebuffer().len() && i != y * 160 + x
                    ==> final(self).spec_current_framebuffer()[i] == old(self).spec_current_framebuffer()[i],
            (lcd.control / 2) % 2 == 0 ==> final(self).spec_current_framebuffer()[y * 160 + x]
                == spec_bg_window_pixel(old(self).video_ram, *lcd, x, y),
    {
        let addressing_mode = lcd.get_addressing_mode();
            let bg_window_priority = lcd.get_background_window_priority();

            let (scroll_x, scroll_y) = lcd.get_scroll_offsets();
            let bg_x = scroll_x.wrapping_add(x);
            let bg_y = scroll_y.wrapping_add(y);
            let bg_tile_map = lcd.get_background_tile_map();
            let palette = lcd.get_background_palette();

            let mut bg_color_index_was_zero: bool;
            if bg_window_priority {
                let bg_color = self.get_color_at_pixel_using_tilemap(
                    bg_x,
                    bg_y,
                    bg_tile_map,
                    addressing_mode,
                );
                bg_color_index_was_zero = matches!(bg_color, ColorIndex::Color0);
                let color = palette.get_color(&bg_color);
                self.write_to_framebuffer(x as usize, y as usize, color);
            } else {
                bg_color_index_was_zero = true;
                self.write_to_framebuffer(x as usize, y as usize, Color::White);
            }

            bg_color_index_was_zero = self.composite_window(
                lcd,
                x,
                y,
                bg_color_index_was_zero,
                bg_window_priority,
            );

            let objects_enable = lcd.get_sprite_enable();
            if objects_enable {
                self.composite_sprites(lcd, x, y, bg_color_index_was_zero);
            }
    }

    /// Advances the pixel pipeline by `cycles` dots while the LCD is
    /// enabled: composites one pixel per visible dot (background, then
    /// window, then the cached sprites in priority order), steps the
    /// line state machine, and flips the framebuffer at the end of a
    /// frame. Returns whether a VBlank and/or STAT interrupt fired.
    #[verifier::rlimit(100)]
    #[verifier::spinoff_prover]
    pub fn tick(&mut self, cycles: u64, lcd: &mut Lcd) -> (r: (bool, bool))
        requires
            old(self).wf(),
            old(lcd).wf(),
            cycles <= 0x100000,
        ensures
            final(self).wf(),
            final(lcd).wf(),
            final(self).video_ram == old(self).video_ram,
            final(self).object_attribute_memory == old(self).object_attribute_memory,
            *final(lcd) == (Lcd {
                lx: final(lcd).lx,
                ly: final(lcd).ly,
                status: final(lcd).status,
                last_stat_interrupt: final(lcd).last_stat_interrupt,
                ..*old(lcd)
            }),
            old(lcd).control / 128 == 1 ==> final(self).in_use_by_lcd == (final(lcd).ly < 144 && 0
                <= final(lcd).lx < 160) && final(self).oam_scan_lock == (final(lcd).ly < 144
                && final(lcd).lx < 0),
            old(lcd).control / 128 == 1 ==> ({
                let newpos = (old(lcd).ly * 456 + old(lcd).lx + 80 + cycles) % 70224;
                final(lcd).ly == newpos / 456 && final(lcd).lx == newpos % 456 - 80
            }),
            old(lcd).control / 128 == 1 ==> (*final(lcd), r.0, r.1) == crate::lcd::spec_lcd_scan(
                *old(lcd),
                cycles as nat,
            ),
            old(lcd).control / 128 == 1 && (old(lcd).control / 2) % 2 == 0 && old(lcd).ly * 456
                + old(lcd).lx + 80 + cycles <= 70223 ==> ({
                &&& final(self).framebuffer_selector == old(self).framebuffer_selector
                &&& forall|k: int|
                    0 <= k < cycles ==> #[trigger] spec_dot_pixel_claim(
                        final(self).spec_current_framebuffer(),
                        old(self).video_ram,
                        *old(lcd),
                        old(lcd).ly * 456 + old(lcd).lx + 80,
                        k,
                    )
            }),
            old(lcd).control / 128 != 1 ==> *final(lcd) == *old(lcd) && *final(self)
                == (PictureProcessingUnit {
                in_use_by_lcd: false,
                oam_scan_lock: false,
                ..*old(self)
            }) && r == (false, false),
    {
        let mut vblank_interrupt = false;
        let mut stat_interrupt = false;
        if !lcd.get_lcd_enable() {
            self.in_use_by_lcd = false;
            self.oam_scan_lock = false;
            return (false, false);
        }
        self.set_scan_locks(lcd);
        let ghost base_pos = old(lcd).ly * 456 + old(lcd).lx + 80;
        let ghost no_sprites = (old(lcd).control / 2) % 2 == 0;
        let ghost no_wrap = base_pos + cycles <= 70223;
        let mut c: u64 = 0;
        while c < cycles
            invariant
                c <= cycles,
                self.wf(),
                lcd.wf(),
                self.video_ram == old(self).video_ram,
                self.object_attribute_memory == old(self).object_attribute_memory,
                self.in_use_by_lcd == (lcd.ly < 144 && 0 <= lcd.lx < 160),
                self.oam_scan_lock == (lcd.ly < 144 && lcd.lx < 0),
                lcd.ly * 456 + lcd.lx + 80 == (old(lcd).ly * 456 + old(lcd).lx + 80 + c) % 70224,
                *lcd == (Lcd {
                    lx: lcd.lx,
                    ly: lcd.ly,
                    status: lcd.status,
                    last_stat_interrupt: lcd.last_stat_interrupt,
                    ..*old(lcd)
                }),
                base_pos == old(lcd).ly * 456 + old(lcd).lx + 80,
                old(lcd).wf(),
                old(self).wf(),
                cycles <= 0x100000,
                no_sprites == ((old(lcd).control / 2) % 2 == 0),
                no_wrap == (base_pos + cycles <= 70223),
                (*lcd, vblank_interrupt, stat_interrupt) == crate::lcd::spec_lcd_scan(
                    *old(lcd),
                    c as nat,
                ),
                no_sprites && no_wrap ==> self.framebuffer_selector == old(self).framebuffer_selector,
                no_sprites && no_wrap ==> forall|k: int|
                    0 <= k < c ==> #[trigger] spec_dot_pixel_claim(
                        self.spec_current_framebuffer(),
                        old(self).video_ram,
                        *old(lcd),
                        base_pos,
                        k,
                    ),
            decreases cycles - c,
        {
            let ghost fb_top = self.spec_current_framebuffer();
            proof {
                if no_wrap {
                    vstd::arithmetic::div_mod::lemma_small_mod((base_pos + c) as nat, 70224);
                    assert(lcd.ly * 456 + lcd.lx + 80 == base_pos + c);
                }
            }
            let x_i16 = lcd.get_lx();
            let y = lcd.get_ly();
            if x_i16 == -80 {
                self.get_sprites_for_line(y, lcd.get_sprite_size());
            }
            if 0 <= x_i16 && x_i16 < 160 && y < 144 {
                self.composite_dot(lcd, x_i16 as u8, y);
            }
            proof {
                crate::lcd::lemma_lcd_scan_snoc(*old(lcd), c as nat);
                if no_sprites && no_wrap {
                    let fb_now = self.spec_current_framebuffer();
                    let vram0 = old(self).video_ram;
                    let l0 = *old(lcd);
                    let p = base_pos + c;
                    assert forall|k: int| 0 <= k < c + 1 implies #[trigger] spec_dot_pixel_claim(
                        fb_now,
                        vram0,
                        l0,
                        base_pos,
                        k,
                    ) by {
                        let pk = base_pos + k;
                        let pyk = pk / 456;
                        let pxk = pk % 456 - 80;
                        let pyc = p / 456;
                        let pxc = p % 456 - 80;
                        if k == c {
                            if pyc < 144 && 0 <= pxc < 160 {
                                assert(lcd.ly == pyc && lcd.lx == pxc) by {
                                    vstd::arithmetic::div_mod::lemma_fundamental_div_mod_converse(
                                        p,
                                        456,
                                        lcd.ly as int,
                                        (lcd.lx + 80) as int,
                                    );
                                };
                            }
                        } else {
                            assert(spec_dot_pixel_claim(fb_top, vram0, l0, base_pos, k));
                            if pyk < 144 && 0 <= pxk < 160 && pyc < 144 && 0 <= pxc < 160 {
                                assert(pyk * 160 + pxk != pyc * 160 + pxc) by {
                                    assert(pk == pyk * 456 + (pxk + 80));
                                    assert(p == pyc * 456 + (pxc + 80));
                                    if pyk == pyc {
                                        assert(pxk != pxc);
                                    } else {
                                        vstd::arithmetic::div_mod::lemma_div_is_ordered(
                                            pk,
                                            p,
                                            456,
                                        );
                                        assert(pyk < pyc);
                                        assert(pyk * 160 + pxk < (pyk + 1) * 160);
                                        assert((pyk + 1) * 160 <= pyc * 160) by (
                                        nonlinear_arith)
                                            requires
                                                pyk + 1 <= pyc,
                                        ;
                                    }
                                };
                            }
                        }
                    }
                }
            }
            let prev_ly = lcd.get_ly();
            let interrupts = lcd.tick();
            if prev_ly == 153 && lcd.get_ly() == 0 {
                proof {
                    if no_wrap {
                        assert(base_pos + c == 70223);
                    }
                }
                self.framebuffer_selector = !self.framebuffer_selector;
            }
            self.set_scan_locks(lcd);
            vblank_interrupt = vblank_interrupt || interrupts.0;
            stat_interrupt = stat_interrupt || interrupts.1;
            proof {
                let base = old(lcd).ly * 456 + old(lcd).lx + 80;
                assert(((base + c) % 70224 + 1) % 70224 == (base + c + 1) % 70224) by {
                    vstd::arithmetic::div_mod::lemma_mod_self_0(70224);
                    vstd::arithmetic::div_mod::lemma_add_mod_noop(base + c, 1, 70224);
                    vstd::arithmetic::div_mod::lemma_small_mod(1, 70224);
                };
            }
            c = c + 1;
        }
        (vblank_interrupt, stat_interrupt)
    }

    /// Paints one pixel of the buffer being drawn.
    pub fn write_to_framebuffer(&mut self, x: usize, y: usize, color: Color)
        requires
            x < 160,
            y < 144,
            old(self).wf(),
        ensures
            final(self).wf(),
            final(self).spec_current_framebuffer() == old(self).spec_current_framebuffer().update(
                y * 160 + x,
                color,
            ),
            final(self).in_use_by_lcd == old(self).in_use_by_lcd,
            final(self).oam_scan_lock == old(self).oam_scan_lock,
            final(self).video_ram == old(self).video_ram,
            final(self).object_attribute_memory == old(self).object_attribute_memory,
            final(self).framebuffer_selector == old(self).framebuffer_selector,
            final(self).sprites_this_line == old(self).sprites_this_line,
    {
        if self.framebuffer_selector {
            self.framebuffer2.set(y * 160 + x, color);
        } else {
            self.framebuffer1.set(y * 160 + x, color);
        }
    }

    /// A copy of the buffer currently being displayed.
    #[must_use]
    pub fn get_current_framebuffer(&self) -> (r: Vec<Color>)
        requires
            self.wf(),
        ensures
            r@ == self.spec_current_framebuffer(),
    {
        let source: &Vec<Color> = if self.framebuffer_selector {
            &self.framebuffer2
        } else {
            &self.framebuffer1
        };
        let mut copy: Vec<Color> = Vec::new();
        let mut i: usize = 0;
        while i < source.len()
            invariant
                i <= source@.len(),
                copy@.len() == i,
                forall|j: int| 0 <= j < i ==> copy@[j] == source@[j],
            decreases source@.len() - i,
        {
            copy.push(source[i]);
            i = i + 1;
        }
        proof {
            assert(copy@ =~= source@);
        }
        copy
    }
}

impl Default for PictureProcessingUnit {
    fn default() -> (r: Self)
        ensures
            r.wf(),
            r.in_use_by_lcd == false,
            r.oam_scan_lock == false,
            r.framebuffer_selector == false,
    {
        let mut framebuffer1: Vec<Color> = Vec::new();
        let mut i: usize = 0;
        while i < 160 * 144
            invariant
                i <= 160 * 144,
                framebuffer1@.len() == i,
            decreases 160 * 144 - i,
        {
            framebuffer1.push(Color::White);
            i = i + 1;
        }
        let mut framebuffer2: Vec<Color> = Vec::new();
        let mut j: usize = 0;
        while j < 160 * 144
            invariant
                j <= 160 * 144,
                framebuffer2@.len() == j,
            decreases 160 * 144 - j,
        {
            framebuffer2.push(Color::White);
            j = j + 1;
        }
        PictureProcessingUnit {
            in_use_by_lcd: false,
            oam_scan_lock: false,
            video_ram: VideoRam::default(),
            object_attribute_memory: ObjectAttributeMemory::default(),
            framebuffer1,
            framebuffer2,
            framebuffer_selector: false,
            sprites_this_line: Vec::new(),
        }
    }
}

} // verus!
