//! What the picture processing unit does, stated over a plain record of its state.
use vstd::prelude::*;
use crate::cartridge::MirroringType;

verus! {

/// Every register and memory of the picture processing unit.
pub struct PpuState {
    pub screen_buffer: Seq<u8>,
    pub nmi_interrupt: bool,
    pub chr: Seq<u8>,
    pub mirroring: MirroringType,
    pub vram: Seq<u8>,
    pub palette: Seq<u8>,
    pub oam: Seq<u8>,
    pub ctrl: u8,
    pub mask: u8,
    pub status: u8,
    pub oam_addr: u8,
    pub v: u16,
    pub t: u16,
    pub x: u8,
    pub w: bool,
    pub read_buffer: u8,
    pub scanline: i16,
    pub cycle: u16,
    pub ppu_data_buffer: u8,
    pub bg_shift_pattern_low: u16,
    pub bg_shift_pattern_high: u16,
    pub bg_shift_attrib_low: u16,
    pub bg_shift_attrib_high: u16,
    pub bg_next_tile_id: u8,
    pub bg_next_attribute: u8,
    pub bg_next_pattern_low: u8,
    pub bg_next_pattern_high: u8,
    pub sprite_count: usize,
    pub sprite_patterns_low: Seq<u8>,
    pub sprite_patterns_high: Seq<u8>,
    pub sprite_attributes: Seq<u8>,
    pub sprite_positions_x: Seq<u8>,
    pub sprite_is_zero: Seq<bool>,
    pub odd_frame: bool,
}

/// Width and height of the picture in pixels.
pub open spec fn screen_width() -> int {
    256
}

pub open spec fn screen_height() -> int {
    240
}

/// The shape every state keeps: fixed memory sizes, the dot counter below 341, the scanline
/// in -1..=261, fine X scroll below 8 and at most eight sprites on the line.
pub open spec fn ppu_wf(m: PpuState) -> bool {
    &&& m.screen_buffer.len() == screen_width() * screen_height()
    &&& m.vram.len() == 2048
    &&& m.palette.len() == 32
    &&& m.oam.len() == 256
    &&& m.sprite_patterns_low.len() == 8
    &&& m.sprite_patterns_high.len() == 8
    &&& m.sprite_attributes.len() == 8
    &&& m.sprite_positions_x.len() == 8
    &&& m.sprite_is_zero.len() == 8
    &&& m.cycle <= 340
    &&& -1 <= m.scanline <= 261
    &&& m.x < 8
    &&& m.sprite_count <= 8
}

// ---- Video memory ----------------------------------------------------------------

/// The index into the 2 KiB of nametable memory that a nametable address (0x2000..=0x3EFF)
/// uses: with vertical mirroring tables 0 and 2 share the first kilobyte; with horizontal
/// mirroring tables 0 and 1 do.
pub open spec fn nametable_index(mirroring: MirroringType, address: u16) -> int {
    let offset = (address - 0x2000) % 4096;
    match mirroring {
        MirroringType::Vertical => offset % 2048,
        MirroringType::Horizontal => if offset / 1024 < 2 { offset % 1024 } else { 1024 + offset % 1024 },
    }
}

/// The index into the 32 bytes of palette memory for a palette address; the four sprite
/// backdrop entries 0x3F10, 0x3F14, 0x3F18 and 0x3F1C share the background's.
pub open spec fn palette_slot(address: u16) -> int {
    let a = address % 32;
    if a >= 16 && a % 4 == 0 { a - 16 } else { a as int }
}

/// A read from the PPU address space (mirrored every 16 KiB): pattern memory from the
/// cartridge (0 past its end), nametables, then palettes.
pub open spec fn vram_read(m: PpuState, address: u16) -> u8 {
    let a = (address % 0x4000) as u16;
    if a < 0x2000 {
        if (a as int) < m.chr.len() { m.chr[a as int] } else { 0 }
    } else if a < 0x3F00 {
        m.vram[nametable_index(m.mirroring, a)]
    } else {
        m.palette[palette_slot(a)]
    }
}

/// A write to the PPU address space; writes past the end of pattern memory are dropped.
pub open spec fn vram_write(m: PpuState, address: u16, data: u8) -> PpuState {
    let a = (address % 0x4000) as u16;
    if a < 0x2000 {
        if (a as int) < m.chr.len() { PpuState { chr: m.chr.update(a as int, data), ..m } } else { m }
    } else if a < 0x3F00 {
        PpuState { vram: m.vram.update(nametable_index(m.mirroring, a), data), ..m }
    } else {
        PpuState { palette: m.palette.update(palette_slot(a), data), ..m }
    }
}

/// How far PPUDATA accesses move the VRAM address: 32 when bit 2 of the control register is
/// set, else 1.
pub open spec fn vram_step(ctrl: u8) -> int {
    if ctrl & 0x04 != 0 { 32 } else { 1 }
}

/// The VRAM address moves on by its step, within 15 bits.
pub open spec fn increment_vram(m: PpuState) -> PpuState {
    PpuState { v: ((m.v + vram_step(m.ctrl)) % 0x8000) as u16, ..m }
}

// ---- CPU-visible registers ---------------------------------------------------------

/// Reading PPUSTATUS: the top three status bits over the low five bits of the data latch;
/// clears the vertical-blank flag and the write toggle.
pub open spec fn status_read(m: PpuState) -> (PpuState, u8) {
    ((PpuState { w: false, status: m.status & !0x80u8, ..m }), (m.status & 0xE0) | (m.ppu_data_buffer & 0x1F))
}

/// Reading PPUDATA: below the palettes the read is buffered (the previous buffer comes back
/// and the buffer takes the byte at the address); a palette read comes back at once, masked
/// to six bits, and the buffer takes the nametable byte beneath it. Either way the address
/// moves on.
pub open spec fn data_read(m: PpuState) -> (PpuState, u8) {
    let address = m.v & 0x3FFF;
    let m1 = increment_vram(m);
    if address <= 0x3EFF {
        ((PpuState { read_buffer: vram_read(m1, address), ..m1 }), m.read_buffer)
    } else {
        ((PpuState { read_buffer: vram_read(m1, address & 0x2FFF), ..m1 }), vram_read(m1, address) & 0x3F)
    }
}

/// A CPU read of PPU register `reg` (mirrored every 8): PPUSTATUS, OAMDATA and PPUDATA
/// answer; the others give back the data latch. The latch then holds the value read.
pub open spec fn register_read(m: PpuState, reg: u16) -> (PpuState, u8) {
    let (m1, value) = if reg % 8 == 2 {
        status_read(m)
    } else if reg % 8 == 4 {
        (m, m.oam[m.oam_addr as int])
    } else if reg % 8 == 7 {
        data_read(m)
    } else {
        (m, m.ppu_data_buffer)
    };
    ((PpuState { ppu_data_buffer: value, ..m1 }), value)
}

/// Writing PPUCTRL: the nametable bits go to bits 10-11 of `t`; turning NMI generation on
/// during vertical blank raises an NMI at once.
pub open spec fn ctrl_write(m: PpuState, data: u8) -> PpuState {
    let raise = m.ctrl & 0x80 == 0 && data & 0x80 != 0 && m.status & 0x80 != 0;
    PpuState {
        ctrl: data,
        t: (m.t & 0xF3FF) | (((data & 0x03) as u16) << 10),
        nmi_interrupt: m.nmi_interrupt || raise,
        ..m
    }
}

/// Writing OAMDATA: accepted only outside rendering (rendering off or past the visible
/// lines); stores the byte and moves the OAM address on.
pub open spec fn oam_data_write(m: PpuState, data: u8) -> PpuState {
    if m.mask & 0x18 == 0 || m.scanline >= 240 {
        PpuState { oam: m.oam.update(m.oam_addr as int, data), oam_addr: ((m.oam_addr + 1) % 256) as u8, ..m }
    } else {
        m
    }
}

/// Writing PPUSCROLL: the first write sets fine X and coarse X, the second fine Y and
/// coarse Y.
pub open spec fn scroll_write(m: PpuState, data: u8) -> PpuState {
    if !m.w {
        PpuState { x: data & 0x07, t: (m.t & 0xFFE0) | ((data >> 3) as u16), w: true, ..m }
    } else {
        PpuState {
            t: (m.t & !0x73E0u16) | (((data & 0x07) as u16) << 12) | (((data & 0xF8) as u16) << 2),
            w: false,
            ..m
        }
    }
}

/// Writing PPUADDR: the first write sets the high six bits of `t`, the second the low byte,
/// and copies `t` to `v`.
pub open spec fn addr_write(m: PpuState, data: u8) -> PpuState {
    if !m.w {
        PpuState { t: (m.t & 0x00FF) | (((data & 0x3F) as u16) << 8), w: true, ..m }
    } else {
        let t = (m.t & 0xFF00) | (data as u16);
        PpuState { t, v: t, w: false, ..m }
    }
}

/// A CPU write of `data` to PPU register `reg` (mirrored every 8). The data latch takes
/// the byte whatever the register.
pub open spec fn register_write(m: PpuState, reg: u16, data: u8) -> PpuState {
    let m0 = PpuState { ppu_data_buffer: data, ..m };
    let r = reg % 8;
    if r == 0 {
        ctrl_write(m0, data)
    } else if r == 1 {
        PpuState { mask: data, ..m0 }
    } else if r == 2 {
        m0
    } else if r == 3 {
        PpuState { oam_addr: data, ..m0 }
    } else if r == 4 {
        oam_data_write(m0, data)
    } else if r == 5 {
        scroll_write(m0, data)
    } else if r == 6 {
        addr_write(m0, data)
    } else {
        increment_vram(vram_write(m0, m0.v, data))
    }
}

// ---- Rendering -------------------------------------------------------------------

/// Coarse X moves one tile right, wrapping into the horizontally adjacent nametable;
/// nothing happens while rendering is off.
pub open spec fn scroll_x(m: PpuState) -> PpuState {
    if m.mask & 0x18 == 0 {
        m
    } else if m.v & 0x001F == 31 {
        PpuState { v: (m.v & !0x001Fu16) ^ 0x0400, ..m }
    } else {
        PpuState { v: (m.v + 1) as u16, ..m }
    }
}

/// Fine Y moves one line down; past the eighth line coarse Y moves one tile down, wrapping
/// into the vertically adjacent nametable after row 29 (and to row 0 without switching
/// after row 31). Nothing happens while rendering is off.
pub open spec fn scroll_y(m: PpuState) -> PpuState {
    if m.mask & 0x18 == 0 {
        m
    } else if m.v & 0x7000 != 0x7000 {
        PpuState { v: (m.v + 0x1000) as u16, ..m }
    } else {
        let v1 = m.v & !0x7000u16;
        let y = (v1 & 0x03E0) >> 5;
        let v2 = if y == 29 { v1 ^ 0x0800 } else { v1 };
        let y2: u16 = if y == 29 || y == 31 { 0 } else { (y + 1) as u16 };
        PpuState { v: (v2 & !0x03E0u16) | (y2 << 5), ..m }
    }
}

/// The background fetch of one dot, chosen by the dot's position within its 8-dot tile:
/// nametable byte, attribute bits, pattern low byte, pattern high byte, then scrolling.
pub open spec fn fetch_bg(m: PpuState) -> PpuState {
    let table: u16 = if m.ctrl & 0x10 != 0 { 0x1000 } else { 0 };
    let fine_y = (m.v >> 12) & 0x07;
    let pattern = (table + ((m.bg_next_tile_id as u16) << 4) + fine_y) as u16;
    if m.cycle % 8 == 1 {
        PpuState { bg_next_tile_id: vram_read(m, 0x2000 | (m.v & 0x0FFF)), ..m }
    } else if m.cycle % 8 == 3 {
        let address = 0x23C0 | (m.v & 0x0C00) | ((m.v >> 4) & 0x38) | ((m.v >> 2) & 0x07);
        let shift = ((m.v >> 4) & 0x04) | (m.v & 0x02);
        PpuState { bg_next_attribute: (vram_read(m, address) >> shift) & 0x03, ..m }
    } else if m.cycle % 8 == 5 {
        PpuState { bg_next_pattern_low: vram_read(m, pattern), ..m }
    } else if m.cycle % 8 == 7 {
        PpuState { bg_next_pattern_high: vram_read(m, (pattern + 8) as u16), ..m }
    } else if m.cycle % 8 == 0 {
        let m1 = scroll_x(m);
        if m.cycle == 256 && m.mask & 0x18 != 0 { scroll_y(m1) } else { m1 }
    } else {
        m
    }
}

/// The four background shift registers move one bit left while rendering is on.
pub open spec fn shift_bg(m: PpuState) -> PpuState {
    if m.mask & 0x18 != 0 {
        PpuState {
            bg_shift_pattern_low: m.bg_shift_pattern_low << 1,
            bg_shift_pattern_high: m.bg_shift_pattern_high << 1,
            bg_shift_attrib_low: m.bg_shift_attrib_low << 1,
            bg_shift_attrib_high: m.bg_shift_attrib_high << 1,
            ..m
        }
    } else {
        m
    }
}

/// The fetched tile enters the low bytes of the shift registers; each attribute bit fills a
/// whole byte.
pub open spec fn load_bg(m: PpuState) -> PpuState {
    let a0: u16 = if m.bg_next_attribute & 0x01 != 0 { 0xFF } else { 0 };
    let a1: u16 = if m.bg_next_attribute & 0x02 != 0 { 0xFF } else { 0 };
    PpuState {
        bg_shift_pattern_low: (m.bg_shift_pattern_low & 0xFF00) | (m.bg_next_pattern_low as u16),
        bg_shift_pattern_high: (m.bg_shift_pattern_high & 0xFF00) | (m.bg_next_pattern_high as u16),
        bg_shift_attrib_low: (m.bg_shift_attrib_low & 0xFF00) | a0,
        bg_shift_attrib_high: (m.bg_shift_attrib_high & 0xFF00) | a1,
        ..m
    }
}

/// Bit 15 - `x` of a shift register as 0 or 1: fine X picks the bit under the current dot.
pub open spec fn shifted_bit(reg: u16, x: u8) -> u8 {
    if reg & (0x8000u16 >> x) != 0 { 1 } else { 0 }
}

/// The background pixel under the current dot: (colour index 0-3, palette 0-3). Transparent
/// when background rendering is off, or in the leftmost eight pixels when they are masked.
pub open spec fn bg_pixel(m: PpuState) -> (u8, u8) {
    if m.mask & 0x08 == 0 || (m.cycle <= 8 && m.mask & 0x02 == 0) {
        (0, 0)
    } else {
        (
            (shifted_bit(m.bg_shift_pattern_high, m.x) * 2 + shifted_bit(m.bg_shift_pattern_low, m.x)) as u8,
            (shifted_bit(m.bg_shift_attrib_high, m.x) * 2 + shifted_bit(m.bg_shift_attrib_low, m.x)) as u8,
        )
    }
}

/// The first opaque pixel among the line's sprites `i..`, in slot order: (colour index,
/// palette 4-7, in front of the background, is sprite 0).
pub open spec fn sprite_pixel_from(m: PpuState, i: int) -> (u8, u8, bool, bool)
    decreases m.sprite_count - i,
{
    if i < 0 || i >= m.sprite_count {
        (0, 0, false, false)
    } else {
        let offset = (m.cycle - 1) - m.sprite_positions_x[i];
        if 0 <= offset < 8 {
            let attr = m.sprite_attributes[i];
            let shift: u8 = if attr & 0x40 != 0 { offset as u8 } else { (7 - offset) as u8 };
            let p0 = (m.sprite_patterns_low[i] >> shift) & 0x01;
            let p1 = (m.sprite_patterns_high[i] >> shift) & 0x01;
            let color = (p1 * 2 + p0) as u8;
            if color != 0 {
                (color, ((attr & 0x03) + 4) as u8, attr & 0x20 == 0, m.sprite_is_zero[i])
            } else {
                sprite_pixel_from(m, i + 1)
            }
        } else {
            sprite_pixel_from(m, i + 1)
        }
    }
}

/// The sprite pixel under the current dot; transparent when sprite rendering is off, or in
/// the leftmost eight pixels when they are masked.
pub open spec fn sprite_pixel(m: PpuState) -> (u8, u8, bool, bool) {
    if m.mask & 0x10 == 0 || (m.cycle <= 8 && m.mask & 0x04 == 0) {
        (0, 0, false, false)
    } else {
        sprite_pixel_from(m, 0)
    }
}

/// The colour of palette entry `color` of palette `palette`; colour 0 is the backdrop.
pub open spec fn palette_color(m: PpuState, color: u8, palette: u8) -> u8 {
    if color == 0 {
        vram_read(m, 0x3F00)
    } else {
        vram_read(m, (0x3F00 + palette * 4 + color) as u16)
    }
}

/// Whether this dot is a sprite-0 hit: both pixels opaque, the sprite is sprite 0, both
/// layers on, before the last column, and not in a masked left column.
pub open spec fn sprite_zero_hit(m: PpuState, bg: u8, spr: u8, is_zero: bool) -> bool {
    bg != 0 && spr != 0 && is_zero && m.mask & 0x18 == 0x18 && m.cycle < 256 && (m.cycle > 8 || m.mask & 0x06 == 0x06)
}

/// Draws the pixel of the current dot. With rendering off the pixel is the colour at the
/// VRAM address when that points into the palettes, else the backdrop. Otherwise it is the
/// backdrop when both layers are transparent, the opaque one when one is, and when both are
/// opaque the sprite if it has priority, else the background.
pub open spec fn render_pixel(m: PpuState) -> PpuState {
    let x = m.cycle - 1;
    let y = m.scanline as int;
    if !(0 <= x < 256 && 0 <= y < 240) {
        m
    } else if m.mask & 0x18 == 0 {
        let color = if 0x3F00 <= m.v <= 0x3FFF { vram_read(m, m.v) } else { vram_read(m, 0x3F00) };
        PpuState { screen_buffer: m.screen_buffer.update(y * 256 + x, color), ..m }
    } else {
        let (bi, bp) = bg_pixel(m);
        let (si, sp, front, is_zero) = sprite_pixel(m);
        let color = if bi == 0 && si == 0 {
            vram_read(m, 0x3F00)
        } else if bi == 0 || (si != 0 && front) {
            palette_color(m, si, sp)
        } else {
            palette_color(m, bi, bp)
        };
        let status = if sprite_zero_hit(m, bi, si, is_zero) { m.status | 0x40 } else { m.status };
        PpuState { screen_buffer: m.screen_buffer.update(y * 256 + x, color), status, ..m }
    }
}

/// Sprite height in lines: 16 when bit 5 of the control register is set, else 8.
pub open spec fn sprite_height(m: PpuState) -> int {
    if m.ctrl & 0x20 != 0 { 16 } else { 8 }
}

/// Whether OAM sprite `n` covers the current scanline.
pub open spec fn on_line(m: PpuState, n: int) -> bool {
    let top = m.oam[4 * n] as int;
    top <= m.scanline < top + sprite_height(m)
}

/// How many of the first `n` OAM sprites cover the current scanline.
pub open spec fn count_on_line(m: PpuState, n: int) -> int
    decreases n,
{
    if n <= 0 {
        0
    } else {
        count_on_line(m, n - 1) + if on_line(m, n - 1) { 1int } else { 0 }
    }
}

/// The sprite overflow flag is set when rendering is on and more than eight of the 64
/// sprites cover the current line.
pub open spec fn evaluate_overflow(m: PpuState) -> PpuState {
    if m.mask & 0x18 != 0 && count_on_line(m, 64) > 8 {
        PpuState { status: m.status | 0x20, ..m }
    } else {
        m
    }
}

/// The pattern address of the row of OAM sprite `n` that the current scanline crosses
/// (flipped vertically by bit 7 of its attributes; 8x16 sprites take their bank from bit 0
/// of the tile number).
pub open spec fn sprite_row_address(m: PpuState, n: int) -> u16 {
    let top = m.oam[4 * n] as int;
    let tile = m.oam[4 * n + 1];
    let attr = m.oam[4 * n + 2];
    let size = sprite_height(m);
    let row = if attr & 0x80 != 0 { size - 1 - (m.scanline - top) } else { m.scanline - top };
    if size == 8 {
        let bank: int = if m.ctrl & 0x08 != 0 { 0x1000 } else { 0 };
        (bank + tile * 16 + row) as u16
    } else {
        let bank: int = (tile % 2) * 0x1000;
        let base: int = (tile - tile % 2) as int;
        let actual = if row < 8 { base } else { base + 1 };
        (bank + actual * 16 + row % 8) as u16
    }
}

/// Copies OAM sprite `n` into the next free slot of the line's sprite list.
pub open spec fn load_sprite(m: PpuState, n: int) -> PpuState {
    let slot = m.sprite_count as int;
    let address = sprite_row_address(m, n);
    PpuState {
        sprite_patterns_low: m.sprite_patterns_low.update(slot, vram_read(m, address)),
        sprite_patterns_high: m.sprite_patterns_high.update(slot, vram_read(m, (address + 8) as u16)),
        sprite_attributes: m.sprite_attributes.update(slot, m.oam[4 * n + 2]),
        sprite_positions_x: m.sprite_positions_x.update(slot, m.oam[4 * n + 3]),
        sprite_is_zero: m.sprite_is_zero.update(slot, n == 0),
        sprite_count: (m.sprite_count + 1) as usize,
        ..m
    }
}

/// The line's sprite list after looking at the first `n` OAM sprites: the first eight that
/// cover the line, in OAM order. Slots past the count keep what they held.
pub open spec fn fetch_sprites_upto(m: PpuState, n: int) -> PpuState
    decreases n,
{
    if n <= 0 {
        PpuState { sprite_count: 0, ..m }
    } else {
        let m1 = fetch_sprites_upto(m, n - 1);
        if on_line(m, n - 1) && m1.sprite_count < 8 { load_sprite(m1, n - 1) } else { m1 }
    }
}

pub open spec fn fetch_sprites(m: PpuState) -> PpuState {
    fetch_sprites_upto(m, 64)
}

/// The dot and scanline counters move on: after dot 340 comes the next line, after line 261
/// line -1 of the next frame. On odd frames with rendering on, dot 0 of line -1 is followed
/// by dot 1 set directly, which is where counting leads as well.
pub open spec fn advance_dot(m: PpuState) -> PpuState {
    if m.scanline == -1 && m.cycle == 0 && m.odd_frame && m.mask & 0x18 != 0 {
        PpuState { cycle: 1, ..m }
    } else if m.cycle + 1 >= 341 {
        if m.scanline + 1 > 261 {
            PpuState { cycle: 0, scanline: -1i16, odd_frame: !m.odd_frame, ..m }
        } else {
            PpuState { cycle: 0, scanline: (m.scanline + 1) as i16, ..m }
        }
    } else {
        PpuState { cycle: (m.cycle + 1) as u16, ..m }
    }
}

/// Vertical blank starts at dot 1 of line 241 (raising an NMI when enabled); the
/// pre-render line's dot 1 clears vertical blank, sprite-0 hit and overflow.
pub open spec fn vblank_flags(m: PpuState) -> PpuState {
    let m1 = if m.scanline == 241 && m.cycle == 1 {
        PpuState { status: m.status | 0x80, nmi_interrupt: m.nmi_interrupt || m.ctrl & 0x80 != 0, ..m }
    } else {
        m
    };
    if m1.scanline == -1 && m1.cycle == 1 {
        PpuState { status: m1.status & !0xE0u8, ..m1 }
    } else {
        m1
    }
}

/// Background fetches, the pixel and the shift registers, on the dots that have them.
pub open spec fn fetch_and_draw(m: PpuState) -> PpuState {
    if (1 <= m.cycle <= 256) || (321 <= m.cycle <= 336) {
        let a = fetch_bg(m);
        let b = if 1 <= m.cycle <= 256 && m.scanline != -1 { render_pixel(a) } else { a };
        if m.mask & 0x18 != 0 {
            let c = shift_bg(b);
            if m.cycle % 8 == 0 { load_bg(c) } else { c }
        } else {
            b
        }
    } else {
        m
    }
}

/// With rendering on: at dot 257 the horizontal scroll bits are copied from `t` and, on
/// visible lines, the next line's sprites are evaluated; on dots 280-304 of the pre-render
/// line the vertical scroll bits are copied from `t`.
pub open spec fn scroll_copies_and_sprites(m: PpuState) -> PpuState {
    if m.mask & 0x18 != 0 {
        let m2 = if m.cycle == 257 {
            let c = PpuState { v: (m.v & !0x041Fu16) | (m.t & 0x041F), ..m };
            if m.scanline != -1 { fetch_sprites(evaluate_overflow(c)) } else { c }
        } else {
            m
        };
        if m.scanline == -1 && 280 <= m.cycle <= 304 {
            PpuState { v: (m2.v & !0x7BE0u16) | (m2.t & 0x7BE0), ..m2 }
        } else {
            m2
        }
    } else {
        m
    }
}

/// The work of one dot on lines -1..=239.
pub open spec fn render_dot(m: PpuState) -> PpuState {
    scroll_copies_and_sprites(fetch_and_draw(m))
}

/// One dot of the picture processing unit.
pub open spec fn dot(m: PpuState) -> PpuState {
    let m1 = vblank_flags(advance_dot(m));
    if -1 <= m1.scanline <= 239 { render_dot(m1) } else { m1 }
}

/// A read of the PPU address space gives back what a write there stored: pattern memory
/// within the cartridge's, nametables and palettes.
pub proof fn lemma_vram_read_after_write(m: PpuState, address: u16, data: u8)
    requires
        ppu_wf(m),
        (address % 0x4000) >= 0x2000 || ((address % 0x4000) as int) < m.chr.len(),
    ensures
        vram_read(vram_write(m, address, data), address) == data,
{
}

/// A write to one nametable byte leaves every other nametable byte reading as it did, unless
/// the two share memory through mirroring.
pub proof fn lemma_vram_write_elsewhere(m: PpuState, a: u16, b: u16, data: u8)
    requires
        ppu_wf(m),
        0x2000 <= a % 0x4000 < 0x3F00,
        0x2000 <= b % 0x4000 < 0x3F00,
        nametable_index(m.mirroring, (a % 0x4000) as u16) != nametable_index(m.mirroring, (b % 0x4000) as u16),
    ensures
        vram_read(vram_write(m, a, data), b) == vram_read(m, b),
{
}

/// The sprite palettes' backdrop entries are the background palettes' ones.
pub proof fn lemma_backdrop_mirror(k: u16)
    requires
        k < 4,
    ensures
        palette_slot((0x3F10 + 4 * k) as u16) == palette_slot((0x3F00 + 4 * k) as u16),
{
}

/// With vertical mirroring the nametables at 0x2000 and 0x2800 are one; with horizontal
/// mirroring those at 0x2000 and 0x2400 are.
pub proof fn lemma_nametable_mirroring(address: u16)
    requires
        0x2000 <= address < 0x2400,
    ensures
        nametable_index(MirroringType::Vertical, address) == nametable_index(MirroringType::Vertical, (address + 0x800) as u16),
        nametable_index(MirroringType::Vertical, (address + 0x400) as u16) == nametable_index(MirroringType::Vertical, (address + 0xC00) as u16),
        nametable_index(MirroringType::Horizontal, address) == nametable_index(MirroringType::Horizontal, (address + 0x400) as u16),
        nametable_index(MirroringType::Horizontal, (address + 0x800) as u16) == nametable_index(MirroringType::Horizontal, (address + 0xC00) as u16),
        nametable_index(MirroringType::Vertical, address) != nametable_index(MirroringType::Vertical, (address + 0x400) as u16),
        nametable_index(MirroringType::Horizontal, address) != nametable_index(MirroringType::Horizontal, (address + 0x800) as u16),
{
}

/// Two writes to PPUADDR, high byte first, point the VRAM address at the 14-bit address they
/// spell and leave the write toggle clear.
pub proof fn lemma_ppuaddr_pair(m: PpuState, hi: u8, lo: u8)
    requires
        !m.w,
    ensures
        ({
            let m2 = register_write(register_write(m, 6, hi), 6, lo);
            &&& m2.v == ((hi % 64) * 256 + lo) as u16
            &&& !m2.w
        }),
{
    lemma_address_bytes(m.t, hi, lo);
}

proof fn lemma_address_bytes(t: u16, hi: u8, lo: u8)
    by (bit_vector)
    ensures
        ((((t & 0x00FF) | (((hi & 0x3F) as u16) << 8)) & 0xFF00) | (lo as u16)) == (hi % 64) * 256 + lo,
{
}

/// Reading PPUSTATUS clears the vertical-blank flag and the write toggle and reports the
/// flag as it was.
pub proof fn lemma_status_read_clears(m: PpuState)
    ensures
        ({
            let (m1, value) = register_read(m, 2);
            &&& m1.status & 0x80 == 0
            &&& !m1.w
            &&& (value & 0x80 != 0) == (m.status & 0x80 != 0)
        }),
{
    lemma_status_bits(m.status, m.ppu_data_buffer);
}

proof fn lemma_status_bits(status: u8, latch: u8)
    by (bit_vector)
    ensures
        (status & !0x80u8) & 0x80 == 0,
        (((status & 0xE0) | (latch & 0x1F)) & 0x80 != 0) == (status & 0x80 != 0),
{
}

/// Memory as PPUDATA reads it: pattern tables, nametables, palettes and the layout.
pub open spec fn same_memory(a: PpuState, b: PpuState) -> bool {
    a.chr == b.chr && a.vram == b.vram && a.palette == b.palette && a.mirroring == b.mirroring
}

proof fn lemma_addr_pair_memory(m: PpuState, hi: u8, lo: u8)
    requires
        ppu_wf(m),
        !m.w,
    ensures
        ({
            let m2 = register_write(register_write(m, 6, hi), 6, lo);
            &&& same_memory(m2, m)
            &&& ppu_wf(m2)
            &&& m2.read_buffer == m.read_buffer
            &&& m2.ctrl == m.ctrl
            &&& m2.v == ((hi % 64) * 256 + lo) as u16
            &&& !m2.w
        }),
{
    lemma_ppuaddr_pair(m, hi, lo);
}

/// What the processor writes through PPUDATA it reads back through PPUDATA: point PPUADDR at
/// an address, write a byte, point PPUADDR there again; the first read returns the stale
/// buffer and the second the byte written. This holds for pattern memory the cartridge has
/// and for nametables, as long as the address after the first read is still below the
/// palettes (a palette read is not buffered).
#[verifier::rlimit(40)]
pub proof fn lemma_ppudata_round_trip(m: PpuState, hi: u8, lo: u8, data: u8)
    requires
        ppu_wf(m),
        !m.w,
        (hi % 64) * 256 + lo + vram_step(m.ctrl) <= 0x3EFF,
        (hi % 64) * 256 + lo >= 0x2000 || (hi % 64) * 256 + lo < m.chr.len(),
    ensures
        ({
            let m1 = register_write(register_write(m, 6, hi), 6, lo);
            let m2 = register_write(m1, 7, data);
            let m3 = register_write(register_write(m2, 6, hi), 6, lo);
            let (m4, first) = register_read(m3, 7);
            let (m5, second) = register_read(m4, 7);
            second == data
        }),
{
    let a = ((hi % 64) * 256 + lo) as u16;
    let m1 = register_write(register_write(m, 6, hi), 6, lo);
    lemma_addr_pair_memory(m, hi, lo);
    assert(m1.v == a);
    let m2 = register_write(m1, 7, data);
    let w = vram_write(PpuState { ppu_data_buffer: data, ..m1 }, a, data);
    lemma_vram_read_after_write(PpuState { ppu_data_buffer: data, ..m1 }, a, data);
    assert(m2 == increment_vram(w));
    assert(vram_read(m2, a) == data);
    assert(ppu_wf(m2));
    assert(!m2.w);
    let m3 = register_write(register_write(m2, 6, hi), 6, lo);
    lemma_addr_pair_memory(m2, hi, lo);
    assert(vram_read(m3, a) == data);
    lemma_fourteen_bits(a);
    assert(m3.v & 0x3FFF == a);
    let (m4, first) = register_read(m3, 7);
    assert(m4.read_buffer == data);
    assert(m4.v == ((a + vram_step(m3.ctrl)) % 0x8000) as u16);
    lemma_fourteen_bits(m4.v);
    assert(m4.v & 0x3FFF <= 0x3EFF);
}

proof fn lemma_fourteen_bits(a: u16)
    by (bit_vector)
    ensures
        a < 0x4000 ==> a & 0x3FFF == a,
{
}

/// Vertical blank begins at dot 1 of line 241, and raises an NMI when the control register
/// asks for one.
pub proof fn lemma_vblank_start(m: PpuState)
    requires
        ppu_wf(m),
        m.scanline == 241,
        m.cycle == 0,
    ensures
        dot(m).status & 0x80 != 0,
        dot(m).nmi_interrupt == (m.nmi_interrupt || m.ctrl & 0x80 != 0),
{
    lemma_set_bit7(m.status);
}

proof fn lemma_set_bit7(s: u8)
    by (bit_vector)
    ensures
        (s | 0x80) & 0x80 != 0,
{
}

/// The sprite list only changes the sprite slots and the count.
pub proof fn lemma_fetch_sprites_shape(m: PpuState, n: int)
    requires
        ppu_wf(m),
    ensures
        ({
            let r = fetch_sprites_upto(m, n);
            &&& r == (PpuState {
                sprite_count: r.sprite_count,
                sprite_patterns_low: r.sprite_patterns_low,
                sprite_patterns_high: r.sprite_patterns_high,
                sprite_attributes: r.sprite_attributes,
                sprite_positions_x: r.sprite_positions_x,
                sprite_is_zero: r.sprite_is_zero,
                ..m
            })
            &&& ppu_wf(r)
        }),
    decreases n,
{
    if n > 0 {
        lemma_fetch_sprites_shape(m, n - 1);
    }
}

/// Once eight sprites are on the list, later sprites change nothing.
pub proof fn lemma_fetch_sprites_full(m: PpuState, k: int, n: int)
    requires
        0 <= k <= n,
        fetch_sprites_upto(m, k).sprite_count >= 8,
    ensures
        fetch_sprites_upto(m, n) == fetch_sprites_upto(m, k),
    decreases n - k,
{
    if n > k {
        lemma_fetch_sprites_full(m, k, n - 1);
    }
}

/// Counting more sprites never gives fewer.
pub proof fn lemma_count_on_line_grows(m: PpuState, a: int, b: int)
    requires
        0 <= a <= b,
    ensures
        count_on_line(m, a) <= count_on_line(m, b),
    decreases b - a,
{
    if b > a {
        lemma_count_on_line_grows(m, a, b - 1);
    }
}

/// The state after `n` dots.
pub open spec fn dots(m: PpuState, n: nat) -> PpuState
    decreases n,
{
    if n == 0 {
        m
    } else {
        dot(dots(m, (n - 1) as nat))
    }
}

/// Where a dot sits in its frame: the dot counter, the scanline and the frame parity.
pub open spec fn same_position(a: PpuState, b: PpuState) -> bool {
    a.cycle == b.cycle && a.scanline == b.scanline && a.odd_frame == b.odd_frame && a.mask == b.mask
}

proof fn lemma_fetch_and_draw_keeps(m: PpuState)
    requires
        ppu_wf(m),
        -1 <= m.scanline <= 239,
    ensures
        ppu_wf(fetch_and_draw(m)),
        same_position(fetch_and_draw(m), m),
{
}

proof fn lemma_scroll_copies_keeps(m: PpuState)
    requires
        ppu_wf(m),
    ensures
        ppu_wf(scroll_copies_and_sprites(m)),
        same_position(scroll_copies_and_sprites(m), m),
{
    let c = PpuState { v: (m.v & !0x041Fu16) | (m.t & 0x041F), ..m };
    lemma_fetch_sprites_shape(evaluate_overflow(c), 64);
}

/// A dot keeps the state's shape, and moves the position exactly as the counters say.
proof fn lemma_dot_position(m: PpuState)
    requires
        ppu_wf(m),
    ensures
        ppu_wf(dot(m)),
        same_position(dot(m), advance_dot(m)),
{
    let m1 = vblank_flags(advance_dot(m));
    if -1 <= m1.scanline <= 239 {
        lemma_fetch_and_draw_keeps(m1);
        lemma_scroll_copies_keeps(fetch_and_draw(m1));
    }
}

/// Counting dots from the start of a frame: the dot counter and the scanline are the
/// quotient and remainder by 341.
proof fn lemma_frame_positions(m: PpuState, n: nat)
    requires
        ppu_wf(m),
        m.scanline == -1,
        m.cycle == 0,
        n < 263 * 341,
    ensures
        ppu_wf(dots(m, n)),
        dots(m, n).cycle == n % 341,
        dots(m, n).scanline == n / 341 - 1,
        dots(m, n).odd_frame == m.odd_frame,
        dots(m, n).mask == m.mask,
    decreases n,
{
    if n > 0 {
        let k = (n - 1) as nat;
        lemma_frame_positions(m, k);
        lemma_dot_position(dots(m, k));
        assert(n % 341 == if k % 341 == 340 { 0 } else { k % 341 + 1 });
        assert(n / 341 == if k % 341 == 340 { k / 341 + 1 } else { k / 341 });
    }
}

/// A frame lasts 263 lines of 341 dots, lines -1 through 261, whatever the mask says: from
/// dot 0 of line -1 the unit comes back to dot 0 of line -1 after 263 * 341 dots, with the
/// frame parity flipped. (On odd frames with rendering on, the first dot of line -1 is set to
/// dot 1, which is where counting would have taken it anyway.)
pub proof fn lemma_frame_length(m: PpuState)
    requires
        ppu_wf(m),
        m.scanline == -1,
        m.cycle == 0,
    ensures
        ppu_wf(dots(m, 263 * 341)),
        dots(m, 263 * 341).scanline == -1,
        dots(m, 263 * 341).cycle == 0,
        dots(m, 263 * 341).odd_frame == !m.odd_frame,
{
    let k: nat = (263 * 341 - 1) as nat;
    lemma_frame_positions(m, k);
    lemma_dot_position(dots(m, k));
}

/// The 2-bit palette field of an attribute byte for one 16x16 quadrant: bits 1:0 top-left,
/// 3:2 top-right, 5:4 bottom-left, 7:6 bottom-right.
pub open spec fn attribute_field(a: u8, right: bool, bottom: bool) -> u8 {
    if !bottom && !right {
        a % 4
    } else if !bottom {
        (a / 4) % 4
    } else if !right {
        (a / 16) % 4
    } else {
        (a / 64) % 4
    }
}

/// The attribute fetch (dots with `cycle % 8 == 3`) reads the attribute byte of the 32x32
/// area holding the tile at `v` (0x23C0 of the nametable, plus 8 per four rows of tiles,
/// plus one per four columns) and keeps the field of the tile's 16x16 quadrant, chosen by bit
/// 1 of coarse X and bit 1 of coarse Y.
pub proof fn lemma_attribute_quadrant(m: PpuState)
    requires
        m.cycle % 8 == 3,
    ensures
        ({
            let coarse_x = m.v % 32;
            let coarse_y = (m.v / 32) % 32;
            let table = (m.v / 1024) % 4;
            let address = (0x23C0 + table * 1024 + (coarse_y / 4) * 8 + coarse_x / 4) as u16;
            fetch_bg(m).bg_next_attribute
                == attribute_field(vram_read(m, address), (coarse_x / 2) % 2 == 1, (coarse_y / 2) % 2 == 1)
        }),
{
    let v = m.v;
    lemma_attribute_address(v);
    let address = 0x23C0 | (v & 0x0C00) | ((v >> 4) & 0x38) | ((v >> 2) & 0x07);
    let shift = ((v >> 4) & 0x04) | (v & 0x02);
    lemma_attribute_bits(vram_read(m, address), shift);
}

proof fn lemma_attribute_address(v: u16)
    by (bit_vector)
    ensures
        0x23C0 | (v & 0x0C00) | ((v >> 4) & 0x38) | ((v >> 2) & 0x07)
            == (0x23C0 + ((v / 1024) % 4) * 1024 + (((v / 32) % 32) / 4) * 8 + (v % 32) / 4) as u16,
        ((v >> 4) & 0x04) | (v & 0x02) == (((((v / 32) % 32) / 2) % 2) * 4 + (((v % 32) / 2) % 2) * 2) as u16,
{
}

proof fn lemma_attribute_bits(a: u8, shift: u16)
    by (bit_vector)
    ensures
        shift == 0 ==> (a >> shift) & 0x03 == a % 4,
        shift == 2 ==> (a >> shift) & 0x03 == (a / 4) % 4,
        shift == 4 ==> (a >> shift) & 0x03 == (a / 16) % 4,
        shift == 6 ==> (a >> shift) & 0x03 == (a / 64) % 4,
{
}

/// Bit `b` (0 = least significant) of a pattern byte, as 0 or 1.
pub open spec fn pattern_bit(x: u8, b: int) -> u8 {
    if b == 0 {
        x % 2
    } else if b == 1 {
        (x / 2) % 2
    } else if b == 2 {
        (x / 4) % 2
    } else if b == 3 {
        (x / 8) % 2
    } else if b == 4 {
        (x / 16) % 2
    } else if b == 5 {
        (x / 32) % 2
    } else if b == 6 {
        (x / 64) % 2
    } else {
        (x / 128) % 2
    }
}

/// A sprite's pixel at column `o` (0..7) from its X position: without horizontal flip
/// (attribute bit 6 clear) it is bit 7 - `o` of its pattern bytes, so the leftmost pixel is
/// the most significant bit; with the flip it is bit `o`. An opaque pixel is drawn with palette
/// 4 + the attribute's low two bits; a transparent one lets the later sprites show.
pub proof fn lemma_sprite_column(m: PpuState, i: int)
    requires
        ppu_wf(m),
        0 <= i < m.sprite_count,
    ensures
        ({
            let o = (m.cycle - 1) - m.sprite_positions_x[i];
            let attr = m.sprite_attributes[i];
            let b = if (attr / 64) % 2 == 1 { o } else { 7 - o };
            let c = pattern_bit(m.sprite_patterns_high[i], b) * 2 + pattern_bit(m.sprite_patterns_low[i], b);
            0 <= o < 8 ==> {
                &&& c != 0 ==> sprite_pixel_from(m, i).0 == c && sprite_pixel_from(m, i).1 == attr % 4 + 4
                &&& c == 0 ==> sprite_pixel_from(m, i) == sprite_pixel_from(m, i + 1)
            }
        }),
{
    let attr = m.sprite_attributes[i];
    crate::bits::lemma_byte_bits(attr);
    lemma_low_two(attr);
    lemma_pattern_bits(m.sprite_patterns_low[i]);
    lemma_pattern_bits(m.sprite_patterns_high[i]);
}

proof fn lemma_low_two(a: u8)
    by (bit_vector)
    ensures
        a & 0x03 == a % 4,
        (a & 0x40 != 0) == ((a / 64) % 2 == 1),
{
}

proof fn lemma_pattern_bits(x: u8)
    by (bit_vector)
    ensures
        (x >> 0u8) & 0x01 == x % 2,
        (x >> 1u8) & 0x01 == (x / 2) % 2,
        (x >> 2u8) & 0x01 == (x / 4) % 2,
        (x >> 3u8) & 0x01 == (x / 8) % 2,
        (x >> 4u8) & 0x01 == (x / 16) % 2,
        (x >> 5u8) & 0x01 == (x / 32) % 2,
        (x >> 6u8) & 0x01 == (x / 64) % 2,
        (x >> 7u8) & 0x01 == (x / 128) % 2,
{
}

/// The first PPUSCROLL write (toggle clear) of `d` splits it into fine X (`d` mod 8) and the
/// coarse X field (low five bits of `t`, `d` / 8), so that 8 * coarse X + fine X = `d`; the
/// other bits of `t` keep their value and the toggle is set.
pub proof fn lemma_scroll_first_write(m: PpuState, d: u8)
    requires
        !m.w,
    ensures
        ({
            let r = register_write(m, 5, d);
            &&& r.x == d % 8
            &&& r.t % 32 == d / 8
            &&& r.x + 8 * (r.t % 32) == d
            &&& r.t / 32 == m.t / 32
            &&& r.w
        }),
{
    lemma_scroll_byte(d);
    lemma_coarse_x_bits(m.t, (d >> 3) as u16);
}

/// The second PPUSCROLL write (toggle set) of `d` puts fine Y (`d` mod 8) in bits 12-14 of
/// `t` and coarse Y (`d` / 8) in bits 5-9; coarse X, the nametable bits and bit 15 keep their
/// value and the toggle is cleared.
pub proof fn lemma_scroll_second_write(m: PpuState, d: u8)
    requires
        m.w,
    ensures
        ({
            let r = register_write(m, 5, d);
            &&& (r.t / 4096) % 8 == d % 8
            &&& (r.t / 32) % 32 == d / 8
            &&& r.t % 32 == m.t % 32
            &&& (r.t / 1024) % 4 == (m.t / 1024) % 4
            &&& r.t / 32768 == m.t / 32768
            &&& r.x == m.x
            &&& !r.w
        }),
{
    lemma_scroll_byte(d);
    lemma_fine_y_bits(m.t, (d & 0x07) as u16, (d & 0xF8) as u16);
}

proof fn lemma_scroll_byte(d: u8)
    by (bit_vector)
    ensures
        d & 0x07 == d % 8,
        d >> 3 == d / 8,
        (d & 0xF8) / 8 == d / 8,
        (d & 0xF8) % 8 == 0,
{
}

proof fn lemma_coarse_x_bits(t: u16, e: u16)
    by (bit_vector)
    requires
        e < 32,
    ensures
        ((t & 0xFFE0) | e) % 32 == e,
        ((t & 0xFFE0) | e) / 32 == t / 32,
{
}

proof fn lemma_fine_y_bits(t: u16, a: u16, b: u16)
    by (bit_vector)
    requires
        a < 8,
        b < 256,
        b % 8 == 0,
    ensures
        (((t & !0x73E0u16) | (a << 12) | (b << 2)) / 4096) % 8 == a,
        (((t & !0x73E0u16) | (a << 12) | (b << 2)) / 32) % 32 == b / 8,
        ((t & !0x73E0u16) | (a << 12) | (b << 2)) % 32 == t % 32,
        (((t & !0x73E0u16) | (a << 12) | (b << 2)) / 1024) % 4 == (t / 1024) % 4,
        ((t & !0x73E0u16) | (a << 12) | (b << 2)) / 32768 == t / 32768,
{
}

/// The dot that reaches dot 1 of the pre-render line clears vertical blank, sprite-0 hit and
/// sprite overflow (status bits 7, 6 and 5) and keeps the low five bits.
pub proof fn lemma_prerender_clears_flags(m: PpuState)
    requires
        ppu_wf(m),
        m.scanline == -1,
        m.cycle == 0,
    ensures
        dot(m).scanline == -1,
        dot(m).cycle == 1,
        dot(m).status == m.status % 32,
        dot(m).status & 0xE0 == 0,
{
    lemma_clear_top_three(m.status);
}

proof fn lemma_clear_top_three(s: u8)
    by (bit_vector)
    ensures
        s & !0xE0u8 == s % 32,
        (s % 32) & 0xE0 == 0,
{
}

} // verus!
