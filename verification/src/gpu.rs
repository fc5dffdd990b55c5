//! The pixel pipeline: a per-scanline mode state machine, a decoded tile
//! cache kept in step with VRAM, a 40-entry object table kept in step with
//! OAM, and a scanline compositor that paints a 160 by 144 grayscale RGBA
//! frame buffer. Each visible scanline spends 80 cycles in OAM scan, 172 in
//! VRAM transfer and 204 in horizontal blank; ten further 456-cycle lines of
//! vertical blank complete the 70224-cycle frame.

use vstd::prelude::*;

verus! {

pub const SCREEN_WIDTH: usize = 160;

pub const SCREEN_HEIGHT: usize = 144;

pub const SCREEN_PIXEL_COUNT: usize = 23040;

pub const ONE_FRAME_IN_CYCLES: usize = 70224;

pub const OAM_NUMBER_OF_OBJECTS: usize = 40;

pub const VIDEO_RAM_SIZE: usize = 8192;

pub const OAM_SIZE: usize = 160;

pub const TILE_COUNT: usize = 384;

pub const SCREEN_BUFFER_SIZE: usize = 92160;

/// Which region holds tile pixel data: unsigned indexing from 0x8000, or
/// signed indexing around 0x9000 for data based at 0x8800.
#[derive(Copy, Clone, PartialEq, Eq, Structural, Debug)]
pub enum TileData {
    Ox8000,
    Ox8800,
}

/// Which of the two 32 by 32 tile maps a layer reads.
#[derive(Copy, Clone, PartialEq, Eq, Structural, Debug)]
pub enum TileMap {
    Ox9800,
    Ox9C00,
}

/// A two-bit pixel index before palette mapping.
#[derive(Copy, Clone, PartialEq, Eq, Structural, Debug)]
pub enum TilePixelValue {
    Zero,
    One,
    Two,
    Three,
}

/// Object height: every object is eight pixels wide and eight or sixteen
/// tall.
#[derive(Copy, Clone, PartialEq, Eq, Structural, Debug)]
pub enum ObjSize {
    Size8x8,
    Size8x16,
}

/// Which of the two object palettes an object uses.
#[derive(Copy, Clone, PartialEq, Eq, Structural, Debug)]
pub enum ObjectPalette {
    Zero,
    One,
}

/// One decoded object table entry. The stored positions already carry the
/// device's offsets: y is the OAM byte minus 16 and x the OAM byte minus 8.
#[derive(Copy, Clone, PartialEq, Eq, Structural, Debug)]
pub struct ObjectData {
    pub x: i16,
    pub y: i16,
    pub tile: u8,
    pub priority: bool,
    pub flip_x: bool,
    pub flip_y: bool,
    pub palette: ObjectPalette,
}

/// The scanline mode: OAM scan, VRAM transfer, horizontal blank or vertical
/// blank.
#[derive(Copy, Clone, PartialEq, Eq, Structural, Debug)]
pub enum Mode {
    HBlank,
    VBlank,
    OAMAccess,
    VRAMAccess,
}

/// The two-bit mode code as it appears in the status register.
pub open spec fn spec_mode_code(mode: Mode) -> u8 {
    match mode {
        Mode::HBlank => 0,
        Mode::VBlank => 1,
        Mode::OAMAccess => 2,
        Mode::VRAMAccess => 3,
    }
}

/// One of the four fixed shades.
#[derive(Copy, Clone, PartialEq, Eq, Structural, Debug)]
pub enum Color {
    White,
    LightGray,
    DarkGray,
    Black,
}

/// The channel intensity of a shade: white 255, light gray 192, dark gray
/// 96, black 0.
pub open spec fn spec_color_shade(color: Color) -> u8 {
    match color {
        Color::White => 255,
        Color::LightGray => 192,
        Color::DarkGray => 96,
        Color::Black => 0,
    }
}

/// The shade a two-bit palette code names: 0 white, 1 light gray, 2 dark
/// gray, 3 black.
pub open spec fn spec_color_of_code(code: u8) -> Color {
    if code == 0 {
        Color::White
    } else if code == 1 {
        Color::LightGray
    } else if code == 2 {
        Color::DarkGray
    } else {
        Color::Black
    }
}

/// The two-bit code of a shade; inverse of `spec_color_of_code`.
pub open spec fn spec_color_code(color: Color) -> u8 {
    match color {
        Color::White => 0,
        Color::LightGray => 1,
        Color::DarkGray => 2,
        Color::Black => 3,
    }
}

impl Color {
    /// The shade a two-bit code names; codes above three are taken modulo
    /// four.
    pub fn from_code(code: u8) -> (r: Color)
        ensures
            r == spec_color_of_code(code % 4),
    {
        let c = code % 4;
        if c == 0 {
            Color::White
        } else if c == 1 {
            Color::LightGray
        } else if c == 2 {
            Color::DarkGray
        } else {
            Color::Black
        }
    }

    /// The grayscale intensity written to the frame buffer for this shade.
    pub fn shade(self) -> (r: u8)
        ensures
            r == spec_color_shade(self),
    {
        match self {
            Color::White => 255,
            Color::LightGray => 192,
            Color::DarkGray => 96,
            Color::Black => 0,
        }
    }

    /// The two-bit code of this shade, as a palette register stores it.
    pub fn code(self) -> (r: u8)
        ensures
            r == spec_color_code(self),
    {
        match self {
            Color::White => 0,
            Color::LightGray => 1,
            Color::DarkGray => 2,
            Color::Black => 3,
        }
    }
}

/// A palette: four shades, one per two-bit pixel index.
#[derive(Copy, Clone, PartialEq, Eq, Structural, Debug)]
pub struct Palette(pub Color, pub Color, pub Color, pub Color);

/// The palette a register byte unpacks to, entry 0 from the low two bits up
/// to entry 3 from the high two.
pub open spec fn spec_palette_from_byte(value: u8) -> Palette {
    Palette(
        spec_color_of_code(value % 4),
        spec_color_of_code((value / 4) % 4),
        spec_color_of_code((value / 16) % 4),
        spec_color_of_code(value / 64),
    )
}

/// The register byte a palette reads back as.
pub open spec fn spec_palette_to_byte(p: Palette) -> u8 {
    (spec_color_code(p.0) + spec_color_code(p.1) * 4 + spec_color_code(p.2) * 16 + spec_color_code(
        p.3,
    ) * 64) as u8
}

/// The shade a palette assigns to a pixel index.
pub open spec fn spec_palette_color(p: Palette, value: TilePixelValue) -> Color {
    match value {
        TilePixelValue::Zero => p.0,
        TilePixelValue::One => p.1,
        TilePixelValue::Two => p.2,
        TilePixelValue::Three => p.3,
    }
}

impl Palette {
    /// The identity palette: index 0 white through index 3 black.
    pub fn new() -> (r: Palette)
        ensures
            r == Palette(Color::White, Color::LightGray, Color::DarkGray, Color::Black),
    {
        Palette(Color::White, Color::LightGray, Color::DarkGray, Color::Black)
    }

    /// Unpack a register byte, entries assigned LSB first.
    pub fn from_byte(value: u8) -> (r: Palette)
        ensures
            r == spec_palette_from_byte(value),
    {
        Palette(
            Color::from_code(value % 4),
            Color::from_code((value / 4) % 4),
            Color::from_code((value / 16) % 4),
            Color::from_code(value / 64),
        )
    }

    /// Pack the four entries back into a register byte.
    pub fn to_byte(self) -> (r: u8)
        ensures
            r == spec_palette_to_byte(self),
    {
        self.0.code() + self.1.code() * 4 + self.2.code() * 16 + self.3.code() * 64
    }
}

/// One blank tile of the cache: 64 pixel indices, all zero.
pub fn empty_tile() -> (r: Vec<TilePixelValue>)
    ensures
        r@.len() == 64,
        forall|i: int| 0 <= i < 64 ==> r@[i] == TilePixelValue::Zero,
{
    let mut tile: Vec<TilePixelValue> = Vec::new();
    let mut i: usize = 0;
    while i < 64
        invariant
            i <= 64,
            tile@.len() == i,
            forall|j: int| 0 <= j < i ==> tile@[j] == TilePixelValue::Zero,
        decreases 64 - i,
    {
        tile.push(TilePixelValue::Zero);
        i = i + 1;
    }
    tile
}

pub struct GPU {
    /// 160 by 144 pixels, row major from the top left, four bytes per pixel;
    /// the three color channels carry the same intensity and alpha is 255.
    pub screen_buffer: Vec<u8>,
    /// The 8 KiB of video memory: tile data in the first 0x1800 bytes, the
    /// two tile maps behind them.
    pub video_ram: Vec<u8>,
    /// The 160 bytes of object attribute memory, four per object.
    pub oam: Vec<u8>,
    /// Cycles spent in the current mode so far.
    pub cycles: u16,
    pub lcd_display_enabled: bool,
    pub lcd_y_compare: u8,
    pub background_window_tile_data: TileData,
    pub background_tile_map: TileMap,
    pub background_display_enabled: bool,
    pub background_window_palette: Palette,
    /// The decoded tile cache: 384 tiles of 64 two-bit pixels each, flat, in
    /// step with the first 0x1800 bytes of VRAM.
    pub tile_set: Vec<TilePixelValue>,
    pub obj_size: ObjSize,
    pub obj_display_enable: bool,
    pub obj_0_palette: Palette,
    pub obj_1_palette: Palette,
    /// The decoded object table, in step with OAM.
    pub obj_data: Vec<ObjectData>,
    /// The current scanline, 0 to 153.
    pub lcd_y_coordinate: u8,
    pub lcd_mode: Mode,
    pub lyc_interrupt_enabled: bool,
    pub oam_interrupt_enabled: bool,
    pub vblank_interrupt_enabled: bool,
    pub hblank_interrupt_enabled: bool,
    pub window_tile_map: TileMap,
    pub window_display_enabled: bool,
    pub window_x: u8,
    pub window_y: u8,
    pub scroll_x: u8,
    pub scroll_y: u8,
}

/// The mathematical view of the pipeline: the same fields, with each
/// backing vector abstracted to a sequence.
pub ghost struct GpuV {
    pub screen_buffer: Seq<u8>,
    pub video_ram: Seq<u8>,
    pub oam: Seq<u8>,
    pub cycles: u16,
    pub lcd_display_enabled: bool,
    pub lcd_y_compare: u8,
    pub background_window_tile_data: TileData,
    pub background_tile_map: TileMap,
    pub background_display_enabled: bool,
    pub background_window_palette: Palette,
    pub tile_set: Seq<TilePixelValue>,
    pub obj_size: ObjSize,
    pub obj_display_enable: bool,
    pub obj_0_palette: Palette,
    pub obj_1_palette: Palette,
    pub obj_data: Seq<ObjectData>,
    pub lcd_y_coordinate: u8,
    pub lcd_mode: Mode,
    pub lyc_interrupt_enabled: bool,
    pub oam_interrupt_enabled: bool,
    pub vblank_interrupt_enabled: bool,
    pub hblank_interrupt_enabled: bool,
    pub window_tile_map: TileMap,
    pub window_display_enabled: bool,
    pub window_x: u8,
    pub window_y: u8,
    pub scroll_x: u8,
    pub scroll_y: u8,
}

impl View for GPU {
    type V = GpuV;

    open spec fn view(&self) -> GpuV {
        GpuV {
            screen_buffer: self.screen_buffer@,
            video_ram: self.video_ram@,
            oam: self.oam@,
            cycles: self.cycles,
            lcd_display_enabled: self.lcd_display_enabled,
            lcd_y_compare: self.lcd_y_compare,
            background_window_tile_data: self.background_window_tile_data,
            background_tile_map: self.background_tile_map,
            background_display_enabled: self.background_display_enabled,
            background_window_palette: self.background_window_palette,
            tile_set: self.tile_set@,
            obj_size: self.obj_size,
            obj_display_enable: self.obj_display_enable,
            obj_0_palette: self.obj_0_palette,
            obj_1_palette: self.obj_1_palette,
            obj_data: self.obj_data@,
            lcd_y_coordinate: self.lcd_y_coordinate,
            lcd_mode: self.lcd_mode,
            lyc_interrupt_enabled: self.lyc_interrupt_enabled,
            oam_interrupt_enabled: self.oam_interrupt_enabled,
            vblank_interrupt_enabled: self.vblank_interrupt_enabled,
            hblank_interrupt_enabled: self.hblank_interrupt_enabled,
            window_tile_map: self.window_tile_map,
            window_display_enabled: self.window_display_enabled,
            window_x: self.window_x,
            window_y: self.window_y,
            scroll_x: self.scroll_x,
            scroll_y: self.scroll_y,
        }
    }
}

/// How many cycles the current mode lasts.
pub open spec fn spec_mode_duration(mode: Mode) -> int {
    match mode {
        Mode::OAMAccess => 80,
        Mode::VRAMAccess => 172,
        Mode::HBlank => 204,
        Mode::VBlank => 456,
    }
}

/// How far into the 70224-cycle frame the pipeline stands: whole scanlines
/// behind it, plus the finished modes of the current line, plus the cycles
/// spent in the current mode.
pub open spec fn spec_frame_position(g: GpuV) -> int {
    match g.lcd_mode {
        Mode::OAMAccess => g.lcd_y_coordinate * 456 + g.cycles,
        Mode::VRAMAccess => g.lcd_y_coordinate * 456 + 80 + g.cycles,
        Mode::HBlank => g.lcd_y_coordinate * 456 + 252 + g.cycles,
        Mode::VBlank => g.lcd_y_coordinate * 456 + g.cycles,
    }
}

impl GpuV {
    /// The structural invariant: every backing vector has its fixed size,
    /// the cycle accumulator stays below the current mode's duration, the
    /// scanline index is visible outside V-blank and between 144 and 153
    /// inside it, and every object position carries the standard offsets.
    pub open spec fn well_formed(self) -> bool {
        &&& self.screen_buffer.len() == SCREEN_BUFFER_SIZE
        &&& self.video_ram.len() == VIDEO_RAM_SIZE
        &&& self.oam.len() == OAM_SIZE
        &&& self.tile_set.len() == TILE_COUNT * 64
        &&& self.obj_data.len() == OAM_NUMBER_OF_OBJECTS
        &&& self.cycles < spec_mode_duration(self.lcd_mode)
        &&& match self.lcd_mode {
            Mode::VBlank => 144 <= self.lcd_y_coordinate <= 153,
            _ => self.lcd_y_coordinate < 144,
        }
        &&& forall|i: int|
            0 <= i < self.obj_data.len() ==> {
                &&& -16 <= (#[trigger] self.obj_data[i]).y <= 239
                &&& -8 <= self.obj_data[i].x <= 247
            }
    }

}

impl GPU {
    /// The structural invariant: every backing vector has its fixed size,
    /// the cycle accumulator stays below the current mode's duration, the
    /// scanline index is visible outside V-blank and between 144 and 153
    /// inside it, and every object position carries the standard offsets.
    pub open spec fn well_formed(self) -> bool {
        self@.well_formed()
    }

    /// A fresh pipeline: display off, identity palettes, VRAM and OAM filled
    /// with 0xFF, the tile cache blank, the frame buffer black and
    /// transparent, at the start of the horizontal blank of line zero.
    pub fn new() -> (r: GPU)
        ensures
            r.well_formed(),
            !r.lcd_display_enabled,
            !r.background_display_enabled,
            !r.obj_display_enable,
            !r.window_display_enabled,
            r.lcd_mode == Mode::HBlank,
            r.lcd_y_coordinate == 0,
            r.cycles == 0,
            r.lcd_y_compare == 0,
            r.scroll_x == 0,
            r.scroll_y == 0,
            r.window_x == 0,
            r.window_y == 0,
            !r.lyc_interrupt_enabled,
            !r.oam_interrupt_enabled,
            !r.vblank_interrupt_enabled,
            !r.hblank_interrupt_enabled,
            r.background_window_tile_data == TileData::Ox8000,
            r.background_tile_map == TileMap::Ox9800,
            r.window_tile_map == TileMap::Ox9800,
            r.obj_size == ObjSize::Size8x8,
            r.background_window_palette == Palette(
                Color::White,
                Color::LightGray,
                Color::DarkGray,
                Color::Black,
            ),
            r.obj_0_palette == r.background_window_palette,
            r.obj_1_palette == r.background_window_palette,
            forall|i: int| 0 <= i < SCREEN_BUFFER_SIZE ==> r.screen_buffer@[i] == 0,
            forall|i: int| 0 <= i < VIDEO_RAM_SIZE ==> r.video_ram@[i] == 0xFF,
            forall|i: int| 0 <= i < OAM_SIZE ==> r.oam@[i] == 0xFF,
            forall|i: int| 0 <= i < TILE_COUNT * 64 ==> r.tile_set@[i] == TilePixelValue::Zero,
            forall|i: int|
                0 <= i < OAM_NUMBER_OF_OBJECTS ==> r.obj_data@[i] == (ObjectData {
                    x: -8i16,
                    y: -16i16,
                    tile: 0u8,
                    priority: false,
                    flip_x: false,
                    flip_y: false,
                    palette: ObjectPalette::Zero,
                }),
    {
        let screen_buffer = vec![0u8; SCREEN_BUFFER_SIZE];
        let video_ram = vec![0xFFu8; VIDEO_RAM_SIZE];
        let oam = vec![0xFFu8; OAM_SIZE];
        let mut tile_set: Vec<TilePixelValue> = Vec::new();
        let mut i: usize = 0;
        while i < TILE_COUNT * 64
            invariant
                i <= TILE_COUNT * 64,
                tile_set@.len() == i,
                forall|j: int| 0 <= j < i ==> tile_set@[j] == TilePixelValue::Zero,
            decreases TILE_COUNT * 64 - i,
        {
            tile_set.push(TilePixelValue::Zero);
            i = i + 1;
        }
        let blank_object = ObjectData {
            x: -8,
            y: -16,
            tile: 0,
            priority: false,
            flip_x: false,
            flip_y: false,
            palette: ObjectPalette::Zero,
        };
        let mut obj_data: Vec<ObjectData> = Vec::new();
        let mut k: usize = 0;
        while k < OAM_NUMBER_OF_OBJECTS
            invariant
                k <= OAM_NUMBER_OF_OBJECTS,
                obj_data@.len() == k,
                forall|j: int| 0 <= j < k ==> obj_data@[j] == blank_object,
                blank_object == (ObjectData {
                    x: -8i16,
                    y: -16i16,
                    tile: 0u8,
                    priority: false,
                    flip_x: false,
                    flip_y: false,
                    palette: ObjectPalette::Zero,
                }),
            decreases OAM_NUMBER_OF_OBJECTS - k,
        {
            obj_data.push(blank_object);
            k = k + 1;
        }
        GPU {
            screen_buffer,
            video_ram,
            oam,
            cycles: 0,
            lcd_display_enabled: false,
            lcd_y_compare: 0,
            background_window_tile_data: TileData::Ox8000,
            background_tile_map: TileMap::Ox9800,
            background_display_enabled: false,
            background_window_palette: Palette::new(),
            tile_set,
            obj_size: ObjSize::Size8x8,
            obj_display_enable: false,
            obj_0_palette: Palette::new(),
            obj_1_palette: Palette::new(),
            obj_data,
            lcd_y_coordinate: 0,
            lcd_mode: Mode::HBlank,
            lyc_interrupt_enabled: false,
            oam_interrupt_enabled: false,
            vblank_interrupt_enabled: false,
            hblank_interrupt_enabled: false,
            window_tile_map: TileMap::Ox9800,
            window_display_enabled: false,
            window_x: 0,
            window_y: 0,
            scroll_x: 0,
            scroll_y: 0,
        }
    }
}

/// The divisor that isolates bit 7 - i of a byte: pixel 0 of a tile row sits
/// in the highest bit.
pub open spec fn spec_bit_weight(i: int) -> int {
    if i == 0 {
        128
    } else if i == 1 {
        64
    } else if i == 2 {
        32
    } else if i == 3 {
        16
    } else if i == 4 {
        8
    } else if i == 5 {
        4
    } else if i == 6 {
        2
    } else {
        1
    }
}

/// Pixel i of a tile row stored as two bytes: the first byte holds the low
/// bits of the row's pixels and the second the high bits, most significant
/// bit first.
pub open spec fn spec_decoded_pixel(b1: u8, b2: u8, i: int) -> TilePixelValue {
    let low = (b1 as int / spec_bit_weight(i)) % 2;
    let high = (b2 as int / spec_bit_weight(i)) % 2;
    if low == 1 && high == 1 {
        TilePixelValue::Three
    } else if high == 1 {
        TilePixelValue::Two
    } else if low == 1 {
        TilePixelValue::One
    } else {
        TilePixelValue::Zero
    }
}

/// The tile cache after the first i pixels of one row are re-decoded from
/// the row's two bytes.
pub open spec fn spec_retile_up_to(
    tiles: Seq<TilePixelValue>,
    b1: u8,
    b2: u8,
    base: int,
    i: int,
) -> Seq<TilePixelValue>
    decreases i,
{
    if i <= 0 {
        tiles
    } else {
        spec_retile_up_to(tiles, b1, b2, base, i - 1).update(
            base + i - 1,
            spec_decoded_pixel(b1, b2, i - 1),
        )
    }
}

/// The tile cache after the row touched by a write at `addr` is re-decoded
/// from the written VRAM.
pub open spec fn spec_vram_retile(
    vram: Seq<u8>,
    tiles: Seq<TilePixelValue>,
    addr: int,
) -> Seq<TilePixelValue> {
    let norm = addr - addr % 2;
    let b1 = vram[norm];
    let b2 = vram[norm + 1];
    let base = (addr / 16) * 64 + ((addr % 16) / 2) * 8;
    spec_retile_up_to(tiles, b1, b2, base, 8)
}

/// The object entry after one OAM byte lands in it: byte 0 is y plus 16,
/// byte 1 is x plus 8, byte 2 the tile index, byte 3 packs the palette
/// selector at bit 4, horizontal flip at bit 5, vertical flip at bit 6 and
/// background priority at bit 7.
pub open spec fn spec_apply_oam_byte(obj: ObjectData, byte: int, value: u8) -> ObjectData {
    if byte == 0 {
        ObjectData { y: (value - 16) as i16, ..obj }
    } else if byte == 1 {
        ObjectData { x: (value - 8) as i16, ..obj }
    } else if byte == 2 {
        ObjectData { tile: value, ..obj }
    } else {
        ObjectData {
            palette: if (value / 16) % 2 == 1 {
                ObjectPalette::One
            } else {
                ObjectPalette::Zero
            },
            flip_x: (value / 32) % 2 == 1,
            flip_y: (value / 64) % 2 == 1,
            priority: (value / 128) % 2 == 1,
            ..obj
        }
    }
}

/// The pipeline after a VRAM write: the byte lands in VRAM and a write
/// into the tile-data region re-decodes the touched tile row.
#[verifier::opaque]
pub open spec fn spec_gpu_after_vram_write(g: GpuV, addr: int, value: u8) -> GpuV {
    GpuV {
        video_ram: g.video_ram.update(addr, value),
        tile_set: if addr < 0x1800 {
            spec_vram_retile(g.video_ram.update(addr, value), g.tile_set, addr)
        } else {
            g.tile_set
        },
        ..g
    }
}

/// The pipeline after an OAM write: the byte lands in OAM and in the
/// matching field of the matching object entry.
#[verifier::opaque]
pub open spec fn spec_gpu_after_oam_write(g: GpuV, addr: int, value: u8) -> GpuV {
    GpuV {
        oam: g.oam.update(addr, value),
        obj_data: g.obj_data.update(
            addr / 4,
            spec_apply_oam_byte(g.obj_data[addr / 4], addr % 4, value),
        ),
        ..g
    }
}

impl GPU {
    fn decoded_pixel(b1: u8, b2: u8, i: usize) -> (r: TilePixelValue)
        requires
            i < 8,
        ensures
            r == spec_decoded_pixel(b1, b2, i as int),
    {
        let weight: u8 = if i == 0 {
            128
        } else if i == 1 {
            64
        } else if i == 2 {
            32
        } else if i == 3 {
            16
        } else if i == 4 {
            8
        } else if i == 5 {
            4
        } else if i == 6 {
            2
        } else {
            1
        };
        let low = (b1 / weight) % 2;
        let high = (b2 / weight) % 2;
        if low == 1 && high == 1 {
            TilePixelValue::Three
        } else if high == 1 {
            TilePixelValue::Two
        } else if low == 1 {
            TilePixelValue::One
        } else {
            TilePixelValue::Zero
        }
    }

    /// Store a byte into VRAM; a write into the tile-data region, the first
    /// 0x1800 bytes, re-decodes the touched tile row in the cache, so the
    /// cache never lags the VRAM bytes.
    #[verifier::rlimit(100)]
    #[verifier::spinoff_prover]
    pub fn write_vram(&mut self, address: usize, value: u8)
        requires
            old(self).video_ram@.len() == VIDEO_RAM_SIZE,
            old(self).tile_set@.len() == TILE_COUNT * 64,
            address < VIDEO_RAM_SIZE,
        ensures
            final(self)@ == spec_gpu_after_vram_write(old(self)@, address as int, value),
    {
        let ghost g0 = self@;
        self.video_ram.set(address, value);
        if address >= 0x1800 {
            proof {
                assert(self@ == spec_gpu_after_vram_write(g0, address as int, value)) by {
                    reveal(spec_gpu_after_vram_write);
                }
            }
            return ;
        }
        let normalized = address - address % 2;
        let b1 = self.video_ram[normalized];
        let b2 = self.video_ram[normalized + 1];
        let base = (address / 16) * 64 + ((address % 16) / 2) * 8;
        let ghost tiles0 = self.tile_set@;
        let ghost written = *self;
        let mut i: usize = 0;
        while i < 8
            invariant
                i <= 8,
                base + 8 <= TILE_COUNT * 64,
                base + 8 <= self.tile_set@.len(),
                self.tile_set@.len() == tiles0.len(),
                self.tile_set@ == spec_retile_up_to(tiles0, b1, b2, base as int, i as int),
                *self == (GPU { tile_set: self.tile_set, ..written }),
            decreases 8 - i,
        {
            let pixel = GPU::decoded_pixel(b1, b2, i);
            proof {
                assert(base + i < self.tile_set@.len());
            }
            self.tile_set.set(base + i, pixel);
            i = i + 1;
        }
        proof {
            assert(self@ == spec_gpu_after_vram_write(g0, address as int, value)) by {
                reveal(spec_gpu_after_vram_write);
            }
        }
    }

    /// Store a byte into OAM and fold it into the matching field of the
    /// matching object entry, so the object table never lags OAM.
    #[verifier::rlimit(100)]
    #[verifier::spinoff_prover]
    pub fn write_oam(&mut self, index: usize, value: u8)
        requires
            old(self).oam@.len() == OAM_SIZE,
            old(self).obj_data@.len() == OAM_NUMBER_OF_OBJECTS,
            index < OAM_SIZE,
        ensures
            final(self)@ == spec_gpu_after_oam_write(old(self)@, index as int, value),
    {
        let ghost g0 = self@;
        self.oam.set(index, value);
        let object_index = index / 4;
        let byte = index % 4;
        let mut data = self.obj_data[object_index];
        if byte == 0 {
            data.y = value as i16 - 0x10;
        } else if byte == 1 {
            data.x = value as i16 - 0x8;
        } else if byte == 2 {
            data.tile = value;
        } else {
            data.palette = if (value / 16) % 2 == 1 {
                ObjectPalette::One
            } else {
                ObjectPalette::Zero
            };
            data.flip_x = (value / 32) % 2 == 1;
            data.flip_y = (value / 64) % 2 == 1;
            data.priority = (value / 128) % 2 == 1;
        }
        self.obj_data.set(object_index, data);
        proof {
            assert(self@ == spec_gpu_after_oam_write(g0, index as int, value)) by {
                reveal(spec_gpu_after_oam_write);
            }
        }
    }
}


/// The pipeline after a write to one of the control registers below
/// 0xFF46: the control and status bytes unpack into the switches, the
/// scroll and compare registers write through. Other addresses in the range
/// change nothing.
#[verifier::opaque]
pub open spec fn spec_gpu_write_control(g: GpuV, address: u16, value: u8) -> GpuV {
    if address == 0xFF40 {
        GpuV {
            lcd_display_enabled: value / 128 == 1,
            window_tile_map: if (value / 64) % 2 == 1 {
                TileMap::Ox9C00
            } else {
                TileMap::Ox9800
            },
            window_display_enabled: (value / 32) % 2 == 1,
            background_window_tile_data: if (value / 16) % 2 == 1 {
                TileData::Ox8000
            } else {
                TileData::Ox8800
            },
            background_tile_map: if (value / 8) % 2 == 1 {
                TileMap::Ox9C00
            } else {
                TileMap::Ox9800
            },
            obj_size: if (value / 4) % 2 == 1 {
                ObjSize::Size8x16
            } else {
                ObjSize::Size8x8
            },
            obj_display_enable: (value / 2) % 2 == 1,
            background_display_enabled: value % 2 == 1,
            ..g
        }
    } else if address == 0xFF41 {
        GpuV {
            lyc_interrupt_enabled: (value / 64) % 2 == 1,
            oam_interrupt_enabled: (value / 32) % 2 == 1,
            vblank_interrupt_enabled: (value / 16) % 2 == 1,
            hblank_interrupt_enabled: (value / 8) % 2 == 1,
            ..g
        }
    } else if address == 0xFF42 {
        GpuV { scroll_y: value, ..g }
    } else if address == 0xFF43 {
        GpuV { scroll_x: value, ..g }
    } else if address == 0xFF45 {
        GpuV { lcd_y_compare: value, ..g }
    } else {
        g
    }
}

/// The pipeline after a write to one of the palette or window registers
/// from 0xFF46 up: the three palette registers unpack LSB first and the
/// window position registers write through. Other addresses in the range,
/// among them the DMA trigger, change nothing.
#[verifier::opaque]
pub open spec fn spec_gpu_write_palette(g: GpuV, address: u16, value: u8) -> GpuV {
    if address == 0xFF47 {
        GpuV { background_window_palette: spec_palette_from_byte(value), ..g }
    } else if address == 0xFF48 {
        GpuV { obj_0_palette: spec_palette_from_byte(value), ..g }
    } else if address == 0xFF49 {
        GpuV { obj_1_palette: spec_palette_from_byte(value), ..g }
    } else if address == 0xFF4A {
        GpuV { window_y: value, ..g }
    } else if address == 0xFF4B {
        GpuV { window_x: value, ..g }
    } else {
        g
    }
}

/// The pipeline after one display register write.
pub open spec fn spec_gpu_write_register(g: GpuV, address: u16, value: u8) -> GpuV {
    if address < 0xFF46 {
        spec_gpu_write_control(g, address, value)
    } else {
        spec_gpu_write_palette(g, address, value)
    }
}

impl GPU {
    /// Apply one display register write to the pipeline's state.
    pub fn write_register(&mut self, address: u16, value: u8)
        ensures
            final(self)@ == spec_gpu_write_register(old(self)@, address, value),
    {
        if address < 0xFF46 {
            self.write_control_register(address, value);
        } else {
            self.write_palette_register(address, value);
        }
    }

    #[verifier::rlimit(100)]
    #[verifier::spinoff_prover]
    fn write_control_register(&mut self, address: u16, value: u8)
        requires
            address < 0xFF46,
        ensures
            final(self)@ == spec_gpu_write_register(old(self)@, address, value),
    {
        let ghost g0 = self@;
        if address == 0xFF40 {
            self.apply_control_byte(value);
        } else if address == 0xFF41 {
            self.apply_stat_byte(value);
        } else {
            self.write_scroll_register(address, value);
            proof {
                assert(self@ == spec_gpu_write_register(g0, address, value)) by {
                    reveal(spec_gpu_write_control);
                }
            }
            return ;
        }
        proof {
            assert(self@ == spec_gpu_write_register(g0, address, value)) by {
                reveal(spec_gpu_write_control);
            }
        }
    }

    #[verifier::rlimit(100)]
    #[verifier::spinoff_prover]
    fn write_scroll_register(&mut self, address: u16, value: u8)
        requires
            address < 0xFF46,
            address != 0xFF40,
            address != 0xFF41,
        ensures
            address == 0xFF42 ==> final(self)@ == (GpuV { scroll_y: value, ..old(self)@ }),
            address == 0xFF43 ==> final(self)@ == (GpuV { scroll_x: value, ..old(self)@ }),
            address == 0xFF45 ==> final(self)@ == (GpuV { lcd_y_compare: value, ..old(self)@ }),
            address != 0xFF42 && address != 0xFF43 && address != 0xFF45 ==> final(self)@ == old(
                self,
            )@,
    {
        if address == 0xFF42 {
            self.scroll_y = value;
        } else if address == 0xFF43 {
            self.scroll_x = value;
        } else if address == 0xFF45 {
            self.lcd_y_compare = value;
        }
    }

    #[verifier::rlimit(100)]
    #[verifier::spinoff_prover]
    fn write_palette_register(&mut self, address: u16, value: u8)
        requires
            address >= 0xFF46,
        ensures
            final(self)@ == spec_gpu_write_register(old(self)@, address, value),
    {
        let ghost g0 = self@;
        if address == 0xFF47 {
            self.background_window_palette = Palette::from_byte(value);
        } else if address == 0xFF48 {
            self.obj_0_palette = Palette::from_byte(value);
        } else if address == 0xFF49 {
            self.obj_1_palette = Palette::from_byte(value);
        } else {
            self.write_window_register(address, value);
            return ;
        }
        proof {
            assert(self@ == spec_gpu_write_register(g0, address, value)) by {
                reveal(spec_gpu_write_palette);
            }
        }
    }

    #[verifier::rlimit(100)]
    #[verifier::spinoff_prover]
    fn write_window_register(&mut self, address: u16, value: u8)
        requires
            address >= 0xFF46,
            address != 0xFF47,
            address != 0xFF48,
            address != 0xFF49,
        ensures
            final(self)@ == spec_gpu_write_register(old(self)@, address, value),
    {
        let ghost g0 = self@;
        if address == 0xFF4A {
            self.window_y = value;
        } else if address == 0xFF4B {
            self.window_x = value;
        }
        proof {
            assert(self@ == spec_gpu_write_register(g0, address, value)) by {
                reveal(spec_gpu_write_palette);
            }
        }
    }
}

/// A frame buffer with one pixel painted: the three color channels at
/// `base` take the shade and the alpha byte behind them takes 255.
pub open spec fn spec_write_pixel(buf: Seq<u8>, base: int, shade: u8) -> Seq<u8> {
    buf.update(base, shade).update(base + 1, shade).update(base + 2, shade).update(base + 3, 255)
}

/// Where a tile's row starts in the flat tile cache.
pub open spec fn spec_tile_row_base(tile_id: int, row: int) -> int {
    tile_id * 64 + row * 8
}

/// The tile-cache slot a map byte names: the byte itself in unsigned mode,
/// and in signed mode an offset around slot 256, so bytes below 128 name
/// slots 256 to 383 and bytes from 128 up name slots 128 to 255.
pub open spec fn spec_bg_tile_id(data: TileData, map_byte: u8) -> int {
    match data {
        TileData::Ox8000 => map_byte as int,
        TileData::Ox8800 => if map_byte < 128 {
            map_byte + 256
        } else {
            map_byte as int
        },
    }
}

/// Where the selected tile map starts inside VRAM.
pub open spec fn spec_tile_map_base(map: TileMap) -> int {
    match map {
        TileMap::Ox9800 => 0x1800,
        TileMap::Ox9C00 => 0x1C00,
    }
}

/// The background pixel index under screen column x of the current
/// scanline: the scroll registers shift the 256 by 256 background plane,
/// the tile map cell at the shifted position names a tile, and the tile's
/// cached row supplies the pixel.
pub open spec fn spec_bg_pixel(g: GpuV, x: int) -> TilePixelValue {
    let py = (g.lcd_y_coordinate + g.scroll_y) % 256;
    let px = (x + g.scroll_x) % 256;
    let map_byte = g.video_ram[spec_tile_map_base(g.background_tile_map) + (py / 8) * 32 + px / 8];
    let tile_id = spec_bg_tile_id(g.background_window_tile_data, map_byte);
    g.tile_set[spec_tile_row_base(tile_id, py % 8) + px % 8]
}

/// The intensity the background writes at column x, through the background
/// palette.
pub open spec fn spec_bg_shade(g: GpuV, x: int) -> u8 {
    spec_color_shade(spec_palette_color(g.background_window_palette, spec_bg_pixel(g, x)))
}

/// The frame buffer after the background pass has painted the first n
/// columns of the current scanline.
pub open spec fn spec_bg_pass(g: GpuV, buf: Seq<u8>, n: int) -> Seq<u8>
    decreases n,
{
    if n <= 0 {
        buf
    } else {
        spec_write_pixel(
            spec_bg_pass(g, buf, n - 1),
            (g.lcd_y_coordinate * 160 + n - 1) * 4,
            spec_bg_shade(g, n - 1),
        )
    }
}

/// The background pixel indices of the current scanline, all zero when the
/// background layer is off. Objects test these to decide priority and the
/// index-zero show-through.
pub open spec fn spec_bg_row(g: GpuV) -> Seq<TilePixelValue> {
    Seq::new(
        160,
        |x: int|
            if g.background_display_enabled {
                spec_bg_pixel(g, x)
            } else {
                TilePixelValue::Zero
            },
    )
}

/// Object height in pixels: eight, or sixteen in tall mode.
pub open spec fn spec_object_height(size: ObjSize) -> int {
    match size {
        ObjSize::Size8x8 => 8,
        ObjSize::Size8x16 => 16,
    }
}

/// Whether an object's vertical span covers the scanline.
pub open spec fn spec_object_covers(obj: ObjectData, line: int, height: int) -> bool {
    obj.y <= line && line < obj.y + height
}

/// The object row the scanline cuts through, counted from the top after
/// vertical flip.
pub open spec fn spec_object_row(obj: ObjectData, line: int, height: int) -> int {
    if obj.flip_y {
        height - 1 - (line - obj.y)
    } else {
        line - obj.y
    }
}

/// The tile-cache slot an object row reads: in tall mode the low bit of the
/// stored index is forced to zero and the bottom half uses the next slot.
pub open spec fn spec_object_tile_id(obj: ObjectData, row: int, size: ObjSize) -> int {
    match size {
        ObjSize::Size8x8 => obj.tile as int,
        ObjSize::Size8x16 => obj.tile - obj.tile % 2 + if row >= 8 {
            1int
        } else {
            0int
        },
    }
}

/// The object's pixel index at its column x of the current scanline,
/// after both flips.
pub open spec fn spec_object_pixel(g: GpuV, obj: ObjectData, x: int) -> TilePixelValue {
    let height = spec_object_height(g.obj_size);
    let row = spec_object_row(obj, g.lcd_y_coordinate as int, height);
    let tile_id = spec_object_tile_id(obj, row, g.obj_size);
    let px = if obj.flip_x {
        7 - x
    } else {
        x
    };
    g.tile_set[spec_tile_row_base(tile_id, row % 8) + px]
}

/// The palette an object selects.
pub open spec fn spec_object_palette(g: GpuV, obj: ObjectData) -> Palette {
    match obj.palette {
        ObjectPalette::Zero => g.obj_0_palette,
        ObjectPalette::One => g.obj_1_palette,
    }
}

/// The intensity an object writes at its column x, through its palette.
pub open spec fn spec_object_shade(g: GpuV, obj: ObjectData, x: int) -> u8 {
    spec_color_shade(spec_palette_color(spec_object_palette(g, obj), spec_object_pixel(g, obj, x)))
}

/// The frame buffer after one covering object has painted its first k
/// columns: a pixel lands where it falls on screen, its index is not zero,
/// and either the object's background-priority bit is clear or the
/// background pixel under it has index zero.
pub open spec fn spec_object_px_pass(
    g: GpuV,
    obj: ObjectData,
    bg: Seq<TilePixelValue>,
    buf: Seq<u8>,
    k: int,
) -> Seq<u8>
    decreases k,
{
    if k <= 0 {
        buf
    } else {
        let painted = spec_object_px_pass(g, obj, bg, buf, k - 1);
        let x = k - 1;
        let sx = obj.x + x;
        if 0 <= sx < 160 && spec_object_pixel(g, obj, x) != TilePixelValue::Zero && (!obj.priority
            || bg[sx] == TilePixelValue::Zero) {
            spec_write_pixel(
                painted,
                (g.lcd_y_coordinate * 160 + sx) * 4,
                spec_object_shade(g, obj, x),
            )
        } else {
            painted
        }
    }
}

/// The frame buffer after the first n objects of the table have painted the
/// current scanline, in table order.
pub open spec fn spec_object_pass(
    g: GpuV,
    bg: Seq<TilePixelValue>,
    buf: Seq<u8>,
    n: int,
) -> Seq<u8>
    decreases n,
{
    if n <= 0 {
        buf
    } else {
        let painted = spec_object_pass(g, bg, buf, n - 1);
        let obj = g.obj_data[n - 1];
        if spec_object_covers(obj, g.lcd_y_coordinate as int, spec_object_height(g.obj_size)) {
            spec_object_px_pass(g, obj, bg, painted, 8)
        } else {
            painted
        }
    }
}

/// The frame buffer after the current scanline is composited: the
/// background pass paints all 160 columns if the background layer is on,
/// then every covering object paints over it if objects are on.
#[verifier::opaque]
pub open spec fn spec_render_scanline(g: GpuV) -> Seq<u8> {
    let after_bg = if g.background_display_enabled {
        spec_bg_pass(g, g.screen_buffer, 160)
    } else {
        g.screen_buffer
    };
    if g.obj_display_enable {
        spec_object_pass(g, spec_bg_row(g), after_bg, OAM_NUMBER_OF_OBJECTS as int)
    } else {
        after_bg
    }
}

impl GPU {

    /// Unpack the LCD-control byte into the pipeline's eight switches,
    /// display enable at bit 7 down to background enable at bit 0.
    pub fn apply_control_byte(&mut self, value: u8)
        ensures
            final(self)@ == (GpuV {
                lcd_display_enabled: value / 128 == 1,
                window_tile_map: if (value / 64) % 2 == 1 {
                    TileMap::Ox9C00
                } else {
                    TileMap::Ox9800
                },
                window_display_enabled: (value / 32) % 2 == 1,
                background_window_tile_data: if (value / 16) % 2 == 1 {
                    TileData::Ox8000
                } else {
                    TileData::Ox8800
                },
                background_tile_map: if (value / 8) % 2 == 1 {
                    TileMap::Ox9C00
                } else {
                    TileMap::Ox9800
                },
                obj_size: if (value / 4) % 2 == 1 {
                    ObjSize::Size8x16
                } else {
                    ObjSize::Size8x8
                },
                obj_display_enable: (value / 2) % 2 == 1,
                background_display_enabled: value % 2 == 1,
                ..old(self)@
            }),
    {
        self.lcd_display_enabled = value / 128 == 1;
        self.window_tile_map = if (value / 64) % 2 == 1 {
            TileMap::Ox9C00
        } else {
            TileMap::Ox9800
        };
        self.window_display_enabled = (value / 32) % 2 == 1;
        self.background_window_tile_data = if (value / 16) % 2 == 1 {
            TileData::Ox8000
        } else {
            TileData::Ox8800
        };
        self.background_tile_map = if (value / 8) % 2 == 1 {
            TileMap::Ox9C00
        } else {
            TileMap::Ox9800
        };
        self.obj_size = if (value / 4) % 2 == 1 {
            ObjSize::Size8x16
        } else {
            ObjSize::Size8x8
        };
        self.obj_display_enable = (value / 2) % 2 == 1;
        self.background_display_enabled = value % 2 == 1;
    }

    /// Unpack the LCD-status byte's four interrupt enables from bits 6..3.
    pub fn apply_stat_byte(&mut self, value: u8)
        ensures
            final(self)@ == (GpuV {
                lyc_interrupt_enabled: (value / 64) % 2 == 1,
                oam_interrupt_enabled: (value / 32) % 2 == 1,
                vblank_interrupt_enabled: (value / 16) % 2 == 1,
                hblank_interrupt_enabled: (value / 8) % 2 == 1,
                ..old(self)@
            }),
    {
        self.lyc_interrupt_enabled = (value / 64) % 2 == 1;
        self.oam_interrupt_enabled = (value / 32) % 2 == 1;
        self.vblank_interrupt_enabled = (value / 16) % 2 == 1;
        self.hblank_interrupt_enabled = (value / 8) % 2 == 1;
    }

    /// The shade the background palette assigns to a pixel index.
    pub fn tile_value_to_background_color(&self, tile_value: &TilePixelValue) -> (r: Color)
        ensures
            r == spec_palette_color(self.background_window_palette, *tile_value),
    {
        match tile_value {
            TilePixelValue::Zero => self.background_window_palette.0,
            TilePixelValue::One => self.background_window_palette.1,
            TilePixelValue::Two => self.background_window_palette.2,
            TilePixelValue::Three => self.background_window_palette.3,
        }
    }

    /// Composite the current scanline into the frame buffer: the background
    /// layer first, then the objects over it. Only the frame buffer changes.
    #[verifier::rlimit(100)]
    pub fn render_scanline(&mut self)
        requires
            old(self).well_formed(),
            old(self).lcd_y_coordinate < 144,
        ensures
            final(self).well_formed(),
            final(self).screen_buffer@ == spec_render_scanline(old(self)@),
            *final(self) == (GPU { screen_buffer: final(self).screen_buffer, ..*old(self) }),
    {
        proof {
            reveal(spec_render_scanline);
        }
        let ghost g0 = *self;
        let line = self.lcd_y_coordinate as usize;
        let mut scanline: Vec<TilePixelValue> = Vec::new();
        let mut fill: usize = 0;
        while fill < SCREEN_WIDTH
            invariant
                fill <= SCREEN_WIDTH,
                scanline@.len() == fill,
                forall|j: int| 0 <= j < fill ==> scanline@[j] == TilePixelValue::Zero,
            decreases SCREEN_WIDTH - fill,
        {
            scanline.push(TilePixelValue::Zero);
            fill = fill + 1;
        }
        if self.background_display_enabled {
            let mut x: usize = 0;
            while x < SCREEN_WIDTH
                invariant
                    x <= SCREEN_WIDTH,
                    g0.well_formed(),
                    g0.background_display_enabled,
                    g0.lcd_y_coordinate < 144,
                    line == g0.lcd_y_coordinate,
                    scanline@.len() == SCREEN_WIDTH,
                    forall|j: int| 0 <= j < x ==> scanline@[j] == spec_bg_pixel(g0@, j),
                    forall|j: int| x <= j < SCREEN_WIDTH ==> scanline@[j] == TilePixelValue::Zero,
                    self.screen_buffer@.len() == SCREEN_BUFFER_SIZE,
                    self.screen_buffer@ == spec_bg_pass(g0@, g0@.screen_buffer, x as int),
                    *self == (GPU { screen_buffer: self.screen_buffer, ..g0 }),
                decreases SCREEN_WIDTH - x,
            {
                let py = (self.lcd_y_coordinate as usize + self.scroll_y as usize) % 256;
                let px = (x + self.scroll_x as usize) % 256;
                let map_base: usize = match self.background_tile_map {
                    TileMap::Ox9800 => 0x1800,
                    TileMap::Ox9C00 => 0x1C00,
                };
                let map_byte = self.video_ram[map_base + (py / 8) * 32 + px / 8];
                let tile_id: usize = match self.background_window_tile_data {
                    TileData::Ox8000 => map_byte as usize,
                    TileData::Ox8800 => if map_byte < 128 {
                        map_byte as usize + 256
                    } else {
                        map_byte as usize
                    },
                };
                let pixel = self.tile_set[tile_id * 64 + (py % 8) * 8 + px % 8];
                let shade = self.tile_value_to_background_color(&pixel).shade();
                let base = (line * 160 + x) * 4;
                self.screen_buffer.set(base, shade);
                self.screen_buffer.set(base + 1, shade);
                self.screen_buffer.set(base + 2, shade);
                self.screen_buffer.set(base + 3, 255);
                scanline.set(x, pixel);
                x = x + 1;
            }
        }
        proof {
            assert(scanline@ =~= spec_bg_row(g0@));
        }
        let ghost after_bg = self.screen_buffer@;
        if self.obj_display_enable {
            let object_height: i16 = match self.obj_size {
                ObjSize::Size8x8 => 8,
                ObjSize::Size8x16 => 16,
            };
            let line_i = self.lcd_y_coordinate as i16;
            let mut oi: usize = 0;
            while oi < OAM_NUMBER_OF_OBJECTS
                invariant
                    oi <= OAM_NUMBER_OF_OBJECTS,
                    g0.well_formed(),
                    g0.obj_display_enable,
                    g0.lcd_y_coordinate < 144,
                    line == g0.lcd_y_coordinate,
                    line_i == g0.lcd_y_coordinate,
                    object_height == spec_object_height(g0@.obj_size),
                    scanline@ == spec_bg_row(g0@),
                    scanline@.len() == SCREEN_WIDTH,
                    self.screen_buffer@.len() == SCREEN_BUFFER_SIZE,
                    after_bg.len() == SCREEN_BUFFER_SIZE,
                    self.screen_buffer@ == spec_object_pass(g0@, spec_bg_row(g0@), after_bg, oi as int),
                    *self == (GPU { screen_buffer: self.screen_buffer, ..g0 }),
                decreases OAM_NUMBER_OF_OBJECTS - oi,
            {
                let obj = self.obj_data[oi];
                if obj.y <= line_i && line_i < obj.y + object_height {
                    let ghost before_obj = self.screen_buffer@;
                    let row: usize = if obj.flip_y {
                        (object_height - 1 - (line_i - obj.y)) as usize
                    } else {
                        (line_i - obj.y) as usize
                    };
                    let tile_id: usize = match self.obj_size {
                        ObjSize::Size8x8 => obj.tile as usize,
                        ObjSize::Size8x16 => obj.tile as usize - obj.tile as usize % 2 + if row >= 8 {
                            1
                        } else {
                            0
                        },
                    };
                    let palette = match obj.palette {
                        ObjectPalette::Zero => self.obj_0_palette,
                        ObjectPalette::One => self.obj_1_palette,
                    };
                    let mut x: usize = 0;
                    while x < 8
                        invariant
                            x <= 8,
                            g0.well_formed(),
                            g0.lcd_y_coordinate < 144,
                            line == g0.lcd_y_coordinate,
                            line_i == g0.lcd_y_coordinate,
                            object_height == spec_object_height(g0@.obj_size),
                            obj == g0.obj_data@[oi as int],
                            oi < OAM_NUMBER_OF_OBJECTS,
                            spec_object_covers(obj, g0.lcd_y_coordinate as int, object_height as int),
                            row == spec_object_row(obj, g0.lcd_y_coordinate as int, object_height as int),
                            row < 16,
                            tile_id == spec_object_tile_id(obj, row as int, g0.obj_size),
                            tile_id < TILE_COUNT,
                            palette == spec_object_palette(g0@, obj),
                            scanline@ == spec_bg_row(g0@),
                            scanline@.len() == SCREEN_WIDTH,
                            self.screen_buffer@.len() == SCREEN_BUFFER_SIZE,
                            before_obj.len() == SCREEN_BUFFER_SIZE,
                            self.screen_buffer@ == spec_object_px_pass(
                                g0@,
                                obj,
                                spec_bg_row(g0@),
                                before_obj,
                                x as int,
                            ),
                            *self == (GPU { screen_buffer: self.screen_buffer, ..g0 }),
                        decreases 8 - x,
                    {
                        let sx = obj.x + x as i16;
                        if 0 <= sx && sx < SCREEN_WIDTH as i16 {
                            let px: usize = if obj.flip_x {
                                7 - x
                            } else {
                                x
                            };
                            let pixel = self.tile_set[tile_id * 64 + (row % 8) * 8 + px];
                            proof {
                                assert(pixel == spec_object_pixel(g0@, obj, x as int));
                            }
                            if pixel != TilePixelValue::Zero && (!obj.priority || scanline[
                                sx as usize] == TilePixelValue::Zero) {
                                let shade = match pixel {
                                    TilePixelValue::Zero => palette.0,
                                    TilePixelValue::One => palette.1,
                                    TilePixelValue::Two => palette.2,
                                    TilePixelValue::Three => palette.3,
                                }.shade();
                                let base = (line * 160 + sx as usize) * 4;
                                self.screen_buffer.set(base, shade);
                                self.screen_buffer.set(base + 1, shade);
                                self.screen_buffer.set(base + 2, shade);
                                self.screen_buffer.set(base + 3, 255);
                            }
                        }
                        x = x + 1;
                    }
                }
                oi = oi + 1;
            }
        }
    }
}

/// Whether a step crosses the VRAM-transfer boundary and so composites the
/// current scanline.
pub open spec fn spec_gpu_step_renders(g: GpuV, cycles: u16) -> bool {
    g.lcd_display_enabled && g.lcd_mode == Mode::VRAMAccess && g.cycles + cycles >= 172
}

/// The pipeline after a step, with its two interrupt pulses: whether V-blank
/// was entered, and whether an LCD-status condition with its enable set
/// arose. With the display off nothing moves. Otherwise the accumulator
/// grows and at most one mode boundary is crossed: leaving VRAM transfer
/// composites the scanline, leaving H-blank or ticking V-blank advances LY,
/// and LY wraps to zero in place of 154.
#[verifier::opaque]
pub open spec fn spec_gpu_step(g: GpuV, cycles: u16) -> (GpuV, bool, bool) {
    if !g.lcd_display_enabled {
        (g, false, false)
    } else {
        let acc = g.cycles + cycles;
        match g.lcd_mode {
            Mode::OAMAccess => if acc >= 80 {
                (GpuV { lcd_mode: Mode::VRAMAccess, cycles: (acc - 80) as u16, ..g }, false, false)
            } else {
                (GpuV { cycles: acc as u16, ..g }, false, false)
            },
            Mode::VRAMAccess => if acc >= 172 {
                (
                    GpuV {
                        screen_buffer: spec_render_scanline(g),
                        lcd_mode: Mode::HBlank,
                        cycles: (acc - 172) as u16,
                        ..g
                    },
                    false,
                    g.hblank_interrupt_enabled,
                )
            } else {
                (GpuV { cycles: acc as u16, ..g }, false, false)
            },
            Mode::HBlank => if acc >= 204 {
                let new_ly = (g.lcd_y_coordinate + 1) as u8;
                let lyc_hit = new_ly == g.lcd_y_compare && g.lyc_interrupt_enabled;
                if new_ly >= 144 {
                    (
                        GpuV {
                            lcd_mode: Mode::VBlank,
                            lcd_y_coordinate: new_ly,
                            cycles: (acc - 204) as u16,
                            ..g
                        },
                        true,
                        g.vblank_interrupt_enabled || lyc_hit,
                    )
                } else {
                    (
                        GpuV {
                            lcd_mode: Mode::OAMAccess,
                            lcd_y_coordinate: new_ly,
                            cycles: (acc - 204) as u16,
                            ..g
                        },
                        false,
                        g.oam_interrupt_enabled || lyc_hit,
                    )
                }
            } else {
                (GpuV { cycles: acc as u16, ..g }, false, false)
            },
            Mode::VBlank => if acc >= 456 {
                if g.lcd_y_coordinate == 153 {
                    (
                        GpuV {
                            lcd_mode: Mode::OAMAccess,
                            lcd_y_coordinate: 0,
                            cycles: (acc - 456) as u16,
                            ..g
                        },
                        false,
                        g.oam_interrupt_enabled || (g.lcd_y_compare == 0
                            && g.lyc_interrupt_enabled),
                    )
                } else {
                    let new_ly = (g.lcd_y_coordinate + 1) as u8;
                    (
                        GpuV { lcd_y_coordinate: new_ly, cycles: (acc - 456) as u16, ..g },
                        false,
                        new_ly == g.lcd_y_compare && g.lyc_interrupt_enabled,
                    )
                }
            } else {
                (GpuV { cycles: acc as u16, ..g }, false, false)
            },
        }
    }
}

impl GPU {
    fn step_oam_scan(&mut self, cycles: u16) -> (r: (bool, bool))
        requires
            old(self).well_formed(),
            cycles <= 80,
            old(self).lcd_display_enabled,
            old(self).lcd_mode == Mode::OAMAccess,
        ensures
            final(self).well_formed(),
            ({
                let stepped = spec_gpu_step(old(self)@, cycles);
                &&& final(self)@ == stepped.0
                &&& r.0 == stepped.1
                &&& r.1 == stepped.2
            }),
    {
        proof {
            reveal(spec_gpu_step);
        }
        let acc = self.cycles + cycles;
        if acc >= 80 {
            self.lcd_mode = Mode::VRAMAccess;
            self.cycles = acc - 80;
        } else {
            self.cycles = acc;
        }
        (false, false)
    }

    #[verifier::rlimit(100)]
    #[verifier::spinoff_prover]
    fn step_vram_transfer(&mut self, cycles: u16) -> (r: (bool, bool))
        requires
            old(self).well_formed(),
            cycles <= 80,
            old(self).lcd_display_enabled,
            old(self).lcd_mode == Mode::VRAMAccess,
        ensures
            final(self).well_formed(),
            ({
                let stepped = spec_gpu_step(old(self)@, cycles);
                &&& final(self)@ == stepped.0
                &&& r.0 == stepped.1
                &&& r.1 == stepped.2
            }),
    {
        proof {
            reveal(spec_gpu_step);
        }
        let acc = self.cycles + cycles;
        if acc >= 172 {
            self.render_scanline();
            self.cycles = acc - 172;
            self.lcd_mode = Mode::HBlank;
            (false, self.hblank_interrupt_enabled)
        } else {
            self.cycles = acc;
            (false, false)
        }
    }

    #[verifier::rlimit(100)]
    #[verifier::spinoff_prover]
    fn step_hblank(&mut self, cycles: u16) -> (r: (bool, bool))
        requires
            old(self).well_formed(),
            cycles <= 80,
            old(self).lcd_display_enabled,
            old(self).lcd_mode == Mode::HBlank,
        ensures
            final(self).well_formed(),
            ({
                let stepped = spec_gpu_step(old(self)@, cycles);
                &&& final(self)@ == stepped.0
                &&& r.0 == stepped.1
                &&& r.1 == stepped.2
            }),
    {
        proof {
            reveal(spec_gpu_step);
        }
        let acc = self.cycles + cycles;
        if acc >= 204 {
            self.cycles = acc - 204;
            let new_ly = self.lcd_y_coordinate + 1;
            self.lcd_y_coordinate = new_ly;
            let lyc_hit = new_ly == self.lcd_y_compare && self.lyc_interrupt_enabled;
            if new_ly >= 144 {
                self.lcd_mode = Mode::VBlank;
                (true, self.vblank_interrupt_enabled || lyc_hit)
            } else {
                self.lcd_mode = Mode::OAMAccess;
                (false, self.oam_interrupt_enabled || lyc_hit)
            }
        } else {
            self.cycles = acc;
            (false, false)
        }
    }

    #[verifier::rlimit(100)]
    #[verifier::spinoff_prover]
    fn step_vblank(&mut self, cycles: u16) -> (r: (bool, bool))
        requires
            old(self).well_formed(),
            cycles <= 80,
            old(self).lcd_display_enabled,
            old(self).lcd_mode == Mode::VBlank,
        ensures
            final(self).well_formed(),
            ({
                let stepped = spec_gpu_step(old(self)@, cycles);
                &&& final(self)@ == stepped.0
                &&& r.0 == stepped.1
                &&& r.1 == stepped.2
            }),
    {
        proof {
            reveal(spec_gpu_step);
        }
        let acc = self.cycles + cycles;
        if acc >= 456 {
            self.cycles = acc - 456;
            if self.lcd_y_coordinate == 153 {
                self.lcd_y_coordinate = 0;
                self.lcd_mode = Mode::OAMAccess;
                (
                    false,
                    self.oam_interrupt_enabled || (self.lcd_y_compare == 0
                        && self.lyc_interrupt_enabled),
                )
            } else {
                self.lcd_y_coordinate = self.lcd_y_coordinate + 1;
                (
                    false,
                    self.lcd_y_coordinate == self.lcd_y_compare && self.lyc_interrupt_enabled,
                )
            }
        } else {
            self.cycles = acc;
            (false, false)
        }
    }

    /// Advance the pipeline by the given cycles. With the display off
    /// nothing moves. Otherwise the accumulator grows and at most one mode
    /// boundary is crossed: leaving VRAM transfer composites the scanline
    /// into the frame buffer, leaving H-blank or ticking V-blank advances
    /// LY. The result says whether V-blank was entered and whether an
    /// LCD-status interrupt fired.
    pub fn step(&mut self, cycles: u16) -> (r: (bool, bool))
        requires
            old(self).well_formed(),
            cycles <= 80,
        ensures
            final(self).well_formed(),
            ({
                let stepped = spec_gpu_step(old(self)@, cycles);
                &&& final(self)@ == stepped.0
                &&& r.0 == stepped.1
                &&& r.1 == stepped.2
            }),
    {
        proof {
            reveal(spec_gpu_step);
        }
        if !self.lcd_display_enabled {
            return (false, false);
        }
        match self.lcd_mode {
            Mode::OAMAccess => self.step_oam_scan(cycles),
            Mode::VRAMAccess => self.step_vram_transfer(cycles),
            Mode::HBlank => self.step_hblank(cycles),
            Mode::VBlank => self.step_vblank(cycles),
        }
    }
}


/// Re-decoding a tile row never changes the cache's size.
pub proof fn lemma_retile_up_to_len(
    tiles: Seq<TilePixelValue>,
    b1: u8,
    b2: u8,
    base: int,
    i: int,
)
    requires
        0 <= base,
        base + i <= tiles.len(),
    ensures
        spec_retile_up_to(tiles, b1, b2, base, i).len() == tiles.len(),
    decreases i,
{
    reveal_with_fuel(spec_retile_up_to, 2);
    if i > 0 {
        lemma_retile_up_to_len(tiles, b1, b2, base, i - 1);
    }
}

/// A VRAM write keeps the pipeline well formed.
pub proof fn lemma_vram_write_well_formed(g: GpuV, addr: int, value: u8)
    requires
        g.well_formed(),
        0 <= addr < VIDEO_RAM_SIZE,
    ensures
        spec_gpu_after_vram_write(g, addr, value).well_formed(),
{
    reveal(spec_gpu_after_vram_write);
    if addr < 0x1800 {
        let written = g.video_ram.update(addr, value);
        lemma_retile_up_to_len(
            g.tile_set,
            written[addr - addr % 2],
            written[addr - addr % 2 + 1],
            (addr / 16) * 64 + ((addr % 16) / 2) * 8,
            8,
        );
    }
}

/// An OAM write keeps the pipeline well formed: the updated entry's
/// positions still carry the standard offsets.
pub proof fn lemma_oam_write_well_formed(g: GpuV, addr: int, value: u8)
    requires
        g.well_formed(),
        0 <= addr < OAM_SIZE,
    ensures
        spec_gpu_after_oam_write(g, addr, value).well_formed(),
{
    reveal(spec_gpu_after_oam_write);
    let updated = spec_gpu_after_oam_write(g, addr, value);
    assert forall|i: int| 0 <= i < updated.obj_data.len() implies {
        &&& -16 <= (#[trigger] updated.obj_data[i]).y <= 239
        &&& -8 <= updated.obj_data[i].x <= 247
    } by {
        assert(-16 <= g.obj_data[i].y <= 239 && -8 <= g.obj_data[i].x <= 247);
    }
}

/// A display register write keeps the pipeline well formed: it touches only
/// configuration scalars.
pub proof fn lemma_register_write_well_formed(g: GpuV, address: u16, value: u8)
    requires
        g.well_formed(),
    ensures
        spec_gpu_write_register(g, address, value).well_formed(),
{
    reveal(spec_gpu_write_control);
    reveal(spec_gpu_write_palette);
}

} // verus!
