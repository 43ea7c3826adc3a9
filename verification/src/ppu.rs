//! The picture processing unit: its registers, its memories and the dot-by-dot renderer.
use vstd::prelude::*;
use crate::cartridge::{Cartridge, MirroringType};
use crate::ppu_state::{
    scroll_x, scroll_y, fetch_bg, shift_bg, load_bg, bg_pixel, shifted_bit, sprite_pixel, sprite_pixel_from,
    palette_color, render_pixel, evaluate_overflow, count_on_line, on_line, sprite_height, fetch_sprites,
    fetch_sprites_upto, load_sprite, sprite_row_address, dot, advance_dot, vblank_flags, render_dot,
    fetch_and_draw, scroll_copies_and_sprites,
    lemma_fetch_sprites_shape, lemma_fetch_sprites_full, lemma_count_on_line_grows,
    PpuState, ppu_wf, nametable_index, palette_slot, vram_read, vram_write, increment_vram, status_read,
    data_read, register_read, register_write, ctrl_write, oam_data_write, scroll_write, addr_write,
};

verus! {

pub struct Ppu {
    pub screen_buffer: Vec<u8>,
    pub nmi_interrupt: bool,
    chr: Vec<u8>,
    mirroring: MirroringType,
    vram: [u8; 2048],
    palette: [u8; 32],
    pub oam: [u8; 256],
    ctrl: u8,
    mask: u8,
    status: u8,
    oam_addr: u8,
    v: u16,
    t: u16,
    x: u8,
    w: bool,
    read_buffer: u8,
    scanline: i16,
    cycle: u16,
    ppu_data_buffer: u8,
    bg_shift_pattern_low: u16,
    bg_shift_pattern_high: u16,
    bg_shift_attrib_low: u16,
    bg_shift_attrib_high: u16,
    bg_next_tile_id: u8,
    bg_next_attribute: u8,
    bg_next_pattern_low: u8,
    bg_next_pattern_high: u8,
    sprite_count: usize,
    sprite_patterns_low: [u8; 8],
    sprite_patterns_high: [u8; 8],
    sprite_attributes: [u8; 8],
    sprite_positions_x: [u8; 8],
    sprite_is_zero: [bool; 8],
    odd_frame: bool,
}

impl View for Ppu {
    type V = PpuState;

    closed spec fn view(&self) -> PpuState {
        PpuState {
            screen_buffer: self.screen_buffer@,
            nmi_interrupt: self.nmi_interrupt,
            chr: self.chr@,
            mirroring: self.mirroring,
            vram: self.vram@,
            palette: self.palette@,
            oam: self.oam@,
            ctrl: self.ctrl,
            mask: self.mask,
            status: self.status,
            oam_addr: self.oam_addr,
            v: self.v,
            t: self.t,
            x: self.x,
            w: self.w,
            read_buffer: self.read_buffer,
            scanline: self.scanline,
            cycle: self.cycle,
            ppu_data_buffer: self.ppu_data_buffer,
            bg_shift_pattern_low: self.bg_shift_pattern_low,
            bg_shift_pattern_high: self.bg_shift_pattern_high,
            bg_shift_attrib_low: self.bg_shift_attrib_low,
            bg_shift_attrib_high: self.bg_shift_attrib_high,
            bg_next_tile_id: self.bg_next_tile_id,
            bg_next_attribute: self.bg_next_attribute,
            bg_next_pattern_low: self.bg_next_pattern_low,
            bg_next_pattern_high: self.bg_next_pattern_high,
            sprite_count: self.sprite_count,
            sprite_patterns_low: self.sprite_patterns_low@,
            sprite_patterns_high: self.sprite_patterns_high@,
            sprite_attributes: self.sprite_attributes@,
            sprite_positions_x: self.sprite_positions_x@,
            sprite_is_zero: self.sprite_is_zero@,
            odd_frame: self.odd_frame,
        }
    }
}

/// The state at power-on: everything zero except the cartridge's pattern memory and
/// nametable layout.
pub open spec fn power_on_state(chr: Seq<u8>, mirroring: MirroringType) -> PpuState {
    PpuState {
        screen_buffer: Seq::new(256 * 240, |i: int| 0u8),
        nmi_interrupt: false,
        chr,
        mirroring,
        vram: Seq::new(2048, |i: int| 0u8),
        palette: Seq::new(32, |i: int| 0u8),
        oam: Seq::new(256, |i: int| 0u8),
        ctrl: 0,
        mask: 0,
        status: 0,
        oam_addr: 0,
        v: 0,
        t: 0,
        x: 0,
        w: false,
        read_buffer: 0,
        scanline: 0,
        cycle: 0,
        ppu_data_buffer: 0,
        bg_shift_pattern_low: 0,
        bg_shift_pattern_high: 0,
        bg_shift_attrib_low: 0,
        bg_shift_attrib_high: 0,
        bg_next_tile_id: 0,
        bg_next_attribute: 0,
        bg_next_pattern_low: 0,
        bg_next_pattern_high: 0,
        sprite_count: 0,
        sprite_patterns_low: Seq::new(8, |i: int| 0u8),
        sprite_patterns_high: Seq::new(8, |i: int| 0u8),
        sprite_attributes: Seq::new(8, |i: int| 0u8),
        sprite_positions_x: Seq::new(8, |i: int| 0u8),
        sprite_is_zero: Seq::new(8, |i: int| false),
        odd_frame: false,
    }
}

impl Ppu {
    /// The shape every state keeps; see `ppu_wf`.
    pub open spec fn wf(&self) -> bool {
        ppu_wf(self@)
    }

    pub fn new(cartridge: &Cartridge) -> (p: Self)
        ensures
            p@ == power_on_state(cartridge.chr_rom@, cartridge.mirroring),
            p.wf(),
    {
        let p = Self {
            sprite_count: 0,
            sprite_patterns_low: [0; 8],
            sprite_patterns_high: [0; 8],
            sprite_attributes: [0; 8],
            sprite_positions_x: [0; 8],
            sprite_is_zero: [false; 8],
            screen_buffer: vec![0; 256 * 240],
            nmi_interrupt: false,
            chr: cartridge.chr_rom.clone(),
            mirroring: cartridge.mirroring,
            vram: [0; 2048],
            palette: [0; 32],
            oam: [0; 256],
            ctrl: 0,
            mask: 0,
            status: 0,
            oam_addr: 0,
            v: 0,
            t: 0,
            x: 0,
            w: false,
            read_buffer: 0,
            scanline: 0,
            cycle: 0,
            ppu_data_buffer: 0,
            bg_shift_pattern_low: 0,
            bg_shift_pattern_high: 0,
            bg_shift_attrib_low: 0,
            bg_shift_attrib_high: 0,
            bg_next_tile_id: 0,
            bg_next_attribute: 0,
            bg_next_pattern_low: 0,
            bg_next_pattern_high: 0,
            odd_frame: false,
        };
        assert(p.chr@ =~= cartridge.chr_rom@);
        assert(p.screen_buffer@ =~= Seq::new(256 * 240, |i: int| 0u8));
        assert(p.vram@ =~= Seq::new(2048, |i: int| 0u8));
        assert(p.palette@ =~= Seq::new(32, |i: int| 0u8));
        assert(p.oam@ =~= Seq::new(256, |i: int| 0u8));
        assert(p.sprite_patterns_low@ =~= Seq::new(8, |i: int| 0u8));
        assert(p.sprite_patterns_high@ =~= Seq::new(8, |i: int| 0u8));
        assert(p.sprite_attributes@ =~= Seq::new(8, |i: int| 0u8));
        assert(p.sprite_positions_x@ =~= Seq::new(8, |i: int| 0u8));
        assert(p.sprite_is_zero@ =~= Seq::new(8, |i: int| false));
        p
    }

    /// Stores `data` at `index` in object attribute memory, as sprite DMA does.
    pub fn set_oam(&mut self, index: u8, data: u8)
        ensures
            final(self)@ == (PpuState { oam: old(self)@.oam.update(index as int, data), ..old(self)@ }),
            old(self).wf() ==> final(self).wf(),
    {
        self.oam[index as usize] = data;
    }

    /// A read of the CPU-visible register `reg`.
    pub fn read_register(&mut self, reg: u16) -> (r: u8)
        ensures
            (final(self)@, r) == register_read(old(self)@, reg),
            old(self).wf() ==> final(self).wf(),
    {
        let mapped_reg = reg % 8;
        let res = if mapped_reg == 2 {
            self.read_ppu_status()
        } else if mapped_reg == 4 {
            self.read_oam_data()
        } else if mapped_reg == 7 {
            self.read_ppu_data()
        } else {
            self.ppu_data_buffer
        };
        if mapped_reg == 2 {
            proof {
                lemma_latch_keeps_status(old(self).status, old(self).ppu_data_buffer);
            }
            self.ppu_data_buffer = (res & 0xE0) | (self.ppu_data_buffer & 0x1F);
        } else {
            self.ppu_data_buffer = res;
        }
        res
    }

    /// A write of `data` to the CPU-visible register `reg`.
    pub fn write_register(&mut self, reg: u16, data: u8)
        ensures
            final(self)@ == register_write(old(self)@, reg, data),
            old(self).wf() ==> final(self).wf(),
    {
        proof {
            lemma_fine_x(data);
        }
        self.ppu_data_buffer = data;
        let r = reg % 8;
        if r == 0 {
            self.write_ppu_ctrl(data);
        } else if r == 1 {
            self.write_ppu_mask(data);
        } else if r == 2 {
        } else if r == 3 {
            self.write_oam_addr(data);
        } else if r == 4 {
            self.write_oam_data(data);
        } else if r == 5 {
            self.write_ppu_scroll(data);
        } else if r == 6 {
            self.write_ppu_addr(data);
        } else {
            self.write_ppu_data(data);
        }
    }

    fn mirror_vram_addr(&self, address: u16) -> (index: usize)
        requires
            address >= 0x2000,
        ensures
            index == nametable_index(self.mirroring, address),
            index < 2048,
    {
        proof {
            lemma_low_bits((address - 0x2000) as u16);
        }
        let vram_addr = (address - 0x2000) & 0x0FFF;
        match self.mirroring {
            MirroringType::Vertical => (vram_addr % 2048) as usize,
            MirroringType::Horizontal => {
                let table = vram_addr / 0x0400;
                let offset = vram_addr % 0x0400;
                let index = if table == 0 || table == 1 {
                    offset
                } else {
                    1024 + offset
                };
                index as usize
            },
        }
    }

    fn get_palette_index(&self, address: u16) -> (index: usize)
        ensures
            index == palette_slot(address),
            index < 32,
    {
        proof {
            lemma_low_bits(address);
        }
        let mut palette_addr = (address & 0x001F) as usize;
        if palette_addr >= 0x10 && (palette_addr % 4 == 0) {
            palette_addr -= 0x10;
        }
        palette_addr
    }

    fn read_ppu_address(&mut self, address: u16) -> (r: u8)
        ensures
            r == vram_read(old(self)@, address),
            final(self)@ == old(self)@,
    {
        proof {
            lemma_low_bits(address);
        }
        let address = address & 0x3FFF;
        if address <= 0x1FFF {
            if (address as usize) < self.chr.len() {
                self.chr[address as usize]
            } else {
                0
            }
        } else if address <= 0x3EFF {
            let index = self.mirror_vram_addr(address);
            self.vram[index]
        } else {
            let idx = self.get_palette_index(address);
            self.palette[idx]
        }
    }

    fn write_ppu_address(&mut self, address: u16, data: u8)
        ensures
            final(self)@ == vram_write(old(self)@, address, data),
    {
        proof {
            lemma_low_bits(address);
        }
        let address = address & 0x3FFF;
        if address <= 0x1FFF {
            if (address as usize) < self.chr.len() {
                self.chr.set(address as usize, data);
            }
        } else if address <= 0x3EFF {
            let index = self.mirror_vram_addr(address);
            self.vram[index] = data;
        } else {
            let idx = self.get_palette_index(address);
            self.palette[idx] = data;
        }
    }

    fn read_ppu_status(&mut self) -> (r: u8)
        ensures
            (final(self)@, r) == status_read(old(self)@),
    {
        let current_status = (self.status & 0xE0) | (self.ppu_data_buffer & 0x1F);
        self.w = false;
        self.status &= !0x80;
        current_status
    }

    fn read_oam_data(&mut self) -> (r: u8)
        ensures
            r == old(self)@.oam[old(self)@.oam_addr as int],
            final(self)@ == old(self)@,
    {
        self.oam[self.oam_addr as usize]
    }

    fn increment_vram_addr(&mut self)
        ensures
            final(self)@ == increment_vram(old(self)@),
    {
        let inc: u16 = if (self.ctrl & 0x04) != 0 {
            32
        } else {
            1
        };
        proof {
            lemma_wrap_15_bits(self.v, inc);
        }
        self.v = self.v.wrapping_add(inc) & 0x7FFF;
    }

    fn read_ppu_data(&mut self) -> (r: u8)
        ensures
            (final(self)@, r) == data_read(old(self)@),
    {
        let addr = self.v & 0x3FFF;
        self.increment_vram_addr();
        if addr <= 0x3EFF {
            let result = self.read_buffer;
            self.read_buffer = self.read_ppu_address(addr);
            result
        } else {
            let result = self.read_ppu_address(addr);
            self.read_buffer = self.read_ppu_address(addr & 0x2FFF);
            result & 0x3F
        }
    }

    fn write_ppu_ctrl(&mut self, data: u8)
        ensures
            final(self)@ == ctrl_write(old(self)@, data),
    {
        let old_nmi = (self.ctrl & 0x80) != 0;
        self.ctrl = data;
        self.t &= 0xF3FF;
        self.t |= ((data & 0x03) as u16) << 10;
        if !old_nmi && (data & 0x80 != 0) && (self.status & 0x80 != 0) {
            self.nmi_interrupt = true;
        }
    }

    fn write_ppu_mask(&mut self, data: u8)
        ensures
            final(self)@ == (PpuState { mask: data, ..old(self)@ }),
    {
        self.mask = data;
    }

    fn write_ppu_addr(&mut self, data: u8)
        ensures
            final(self)@ == addr_write(old(self)@, data),
    {
        if !self.w {
            self.t = (self.t & 0x00FF) | (((data & 0x3F) as u16) << 8);
            self.w = true;
        } else {
            self.t = (self.t & 0xFF00) | (data as u16);
            self.v = self.t;
            self.w = false;
        }
    }

    fn write_ppu_scroll(&mut self, data: u8)
        ensures
            final(self)@ == scroll_write(old(self)@, data),
    {
        if !self.w {
            self.x = data & 0x07;
            self.t = (self.t & 0xFFE0) | ((data >> 3) as u16);
            self.w = true;
        } else {
            self.t &= !0x73E0;
            self.t |= ((data & 0x07) as u16) << 12;
            self.t |= ((data & 0xF8) as u16) << 2;
            self.w = false;
        }
    }

    fn write_oam_addr(&mut self, data: u8)
        ensures
            final(self)@ == (PpuState { oam_addr: data, ..old(self)@ }),
    {
        self.oam_addr = data;
    }

    fn write_oam_data(&mut self, data: u8)
        ensures
            final(self)@ == oam_data_write(old(self)@, data),
    {
        if (self.mask & 0x18) == 0 || self.scanline >= 240 {
            self.oam[self.oam_addr as usize] = data;
            self.oam_addr = self.oam_addr.wrapping_add(1);
        }
    }

    fn write_ppu_data(&mut self, data: u8)
        ensures
            final(self)@ == increment_vram(vram_write(old(self)@, old(self)@.v, data)),
    {
        self.write_ppu_address(self.v, data);
        self.increment_vram_addr();
    }
}

impl Ppu {
    /// Advances the unit by one dot.
    pub fn step(&mut self)
        requires
            old(self).wf(),
        ensures
            final(self)@ == dot(old(self)@),
            final(self).wf(),
    {
        let ghost m0 = self@;
        if self.scanline == -1 && self.cycle == 0 && self.odd_frame && (self.mask & 0x18) != 0 {
            self.cycle = 1;
        } else {
            self.cycle += 1;
            if self.cycle >= 341 {
                self.cycle = 0;
                self.scanline = self.scanline.wrapping_add(1);
                if self.scanline > 261 {
                    self.scanline = -1;
                    self.odd_frame = !self.odd_frame;
                }
            }
        }
        assert(self@ == advance_dot(m0));
        let ghost m1 = self@;
        if self.scanline == 241 && self.cycle == 1 {
            self.status |= 0x80;
            if (self.ctrl & 0x80) != 0 {
                self.nmi_interrupt = true;
            }
        }
        if self.scanline == -1 && self.cycle == 1 {
            self.status &= !0xE0;
        }
        assert(self@ == vblank_flags(m1));
        let rendering_enabled = (self.mask & 0x18) != 0;
        if -1 <= self.scanline && self.scanline <= 239 {
            self.render_dot_work(rendering_enabled);
        }
    }

    fn render_dot_work(&mut self, rendering_enabled: bool)
        requires
            old(self).wf(),
            -1 <= old(self)@.scanline <= 239,
            rendering_enabled == (old(self)@.mask & 0x18 != 0),
        ensures
            final(self)@ == render_dot(old(self)@),
            final(self).wf(),
    {
        self.fetch_and_draw(rendering_enabled);
        if rendering_enabled {
            self.scroll_copies_and_sprites();
        }
    }

    fn fetch_and_draw(&mut self, rendering_enabled: bool)
        requires
            old(self).wf(),
            -1 <= old(self)@.scanline <= 239,
            rendering_enabled == (old(self)@.mask & 0x18 != 0),
        ensures
            final(self)@ == fetch_and_draw(old(self)@),
            final(self).wf(),
            final(self)@.cycle == old(self)@.cycle,
            final(self)@.scanline == old(self)@.scanline,
            final(self)@.mask == old(self)@.mask,
    {
        if (1 <= self.cycle && self.cycle <= 256) || (321 <= self.cycle && self.cycle <= 336) {
            self.fetch_bg_data();
            if 1 <= self.cycle && self.cycle <= 256 {
                if self.scanline != -1 {
                    self.render_pixel();
                }
            }
            if rendering_enabled {
                self.shift_bg_registers();
                if self.cycle % 8 == 0 {
                    self.load_bg_shift_registers();
                }
            }
        }
    }

    fn scroll_copies_and_sprites(&mut self)
        requires
            old(self).wf(),
            old(self)@.mask & 0x18 != 0,
        ensures
            final(self)@ == scroll_copies_and_sprites(old(self)@),
            final(self).wf(),
    {
        if self.cycle == 257 {
            self.v = (self.v & !0x041F) | (self.t & 0x041F);
            if self.scanline != -1 {
                self.evalute_sprite_for_overflow();
                let ghost before = self@;
                self.fetch_sprites();
                proof {
                    lemma_fetch_sprites_shape(before, 64);
                }
            }
        }
        if self.scanline == -1 && 280 <= self.cycle && self.cycle <= 304 {
            self.v = (self.v & !0x7BE0) | (self.t & 0x7BE0);
        }
    }

    fn render_pixel(&mut self)
        requires
            old(self).wf(),
            old(self)@.cycle >= 1,
            old(self)@.scanline >= 0,
        ensures
            final(self)@ == render_pixel(old(self)@),
            final(self).wf(),
    {
        let x = (self.cycle - 1) as usize;
        let y = self.scanline as usize;
        if x >= 256 || y >= 240 {
            return;
        }
        if (self.mask & 0x18) == 0 {
            let bg_color = if self.v >= 0x3F00 && self.v <= 0x3FFF {
                self.read_ppu_address(self.v)
            } else {
                self.read_ppu_address(0x3F00)
            };
            self.screen_buffer.set(y * 256 + x, bg_color);
            return;
        }
        let (bg_index, bg_palette) = self.get_bg_pixel();
        let (spr_index, spr_palette, spr_priority, is_zero) = self.get_sprite_pixel();
        let final_color_byte;
        if bg_index == 0 && spr_index == 0 {
            final_color_byte = self.read_ppu_address(0x3F00);
        } else if bg_index == 0 && spr_index != 0 {
            final_color_byte = self.get_sprite_color(spr_index, spr_palette);
        } else if bg_index != 0 && spr_index == 0 {
            final_color_byte = self.get_bg_color(bg_index, bg_palette);
        } else {
            if is_zero && (self.mask & 0x18) == 0x18 {
                let clipping_active = (self.mask & 0x06) != 0x06;
                if self.cycle < 256 {
                    if self.cycle > 8 || !clipping_active {
                        self.status |= 0x40;
                    }
                }
            }
            if spr_priority {
                final_color_byte = self.get_sprite_color(spr_index, spr_palette);
            } else {
                final_color_byte = self.get_bg_color(bg_index, bg_palette);
            }
        }
        self.screen_buffer.set(y * 256 + x, final_color_byte);
    }

    fn evalute_sprite_for_overflow(&mut self)
        requires
            old(self).wf(),
        ensures
            final(self)@ == evaluate_overflow(old(self)@),
    {
        let ghost m = self@;
        if (self.mask & 0x18) != 0 {
            let mut sprites_on_line: i32 = 0;
            let sprite_size: i32 = if (self.ctrl & 0x20) != 0 {
                16
            } else {
                8
            };
            let mut i: usize = 0;
            while i < 256 && sprites_on_line <= 8
                invariant
                    self@ == m,
                    ppu_wf(m),
                    i % 4 == 0,
                    i <= 256,
                    sprites_on_line == count_on_line(m, i as int / 4),
                    sprites_on_line <= 9,
                    sprite_size == sprite_height(m),
                decreases 256 - i,
            {
                let sprite_top = self.oam[i] as i32;
                let sprite_bottom = sprite_top + sprite_size;
                assert(on_line(m, i as int / 4) == (sprite_top <= self.scanline && (self.scanline as i32) < sprite_bottom));
                if sprite_top <= (self.scanline as i32) && (self.scanline as i32) < sprite_bottom {
                    sprites_on_line += 1;
                }
                i += 4;
            }
            proof {
                lemma_count_on_line_grows(m, i as int / 4, 64);
            }
            if sprites_on_line > 8 {
                self.status |= 0x20;
            }
        }
    }

    fn fetch_sprites(&mut self)
        requires
            old(self).wf(),
        ensures
            final(self)@ == fetch_sprites(old(self)@),
            final(self).wf(),
    {
        let ghost m = self@;
        self.sprite_count = 0;
        proof {
            lemma_fetch_sprites_shape(m, 0);
        }
        let sprite_size: i16 = if (self.ctrl & 0x20) != 0 {
            16
        } else {
            8
        };
        let mut i: usize = 0;
        while i < 256 && self.sprite_count < 8
            invariant
                ppu_wf(m),
                i % 4 == 0,
                i <= 256,
                self@ == fetch_sprites_upto(m, i as int / 4),
                ppu_wf(self@),
                sprite_size == sprite_height(m),
            decreases 256 - i,
        {
            proof {
                lemma_fetch_sprites_shape(m, i as int / 4);
                lemma_fetch_sprites_shape(m, i as int / 4 + 1);
            }
            let sprite_y = self.oam[i] as i16;
            if sprite_y <= self.scanline && self.scanline < sprite_y + sprite_size {
                self.load_sprite_slot(i, sprite_size);
            }
            i += 4;
        }
        proof {
            if i < 256 {
                lemma_fetch_sprites_full(m, i as int / 4, 64);
            }
            lemma_fetch_sprites_shape(m, 64);
        }
    }

    fn sprite_tile_address(&self, i: usize, sprite_size: i16) -> (tile_addr: u16)
        requires
            self.wf(),
            i % 4 == 0,
            i < 256,
            on_line(self@, i as int / 4),
            sprite_size == sprite_height(self@),
        ensures
            tile_addr == sprite_row_address(self@, i as int / 4),
            tile_addr <= 0x1FFF,
    {
        let sprite_y = self.oam[i] as i16;
        let tile_id = self.oam[i + 1];
        let attributes = self.oam[i + 2];
        let mut row = self.scanline - sprite_y;
        if (attributes & 0x80) != 0 {
            row = (sprite_size - 1) - row;
        }
        proof {
            lemma_tile_halves(tile_id);
        }
        let tile_addr: u16 = if sprite_size == 8 {
            let bank: u16 = if (self.ctrl & 0x08) != 0 {
                0x1000
            } else {
                0x0000
            };
            bank + (tile_id as u16 * 16) + row as u16
        } else {
            let bank = ((tile_id & 0x01) as u16) * 0x1000;
            let base_tile = (tile_id & 0xFE) as u16;
            let actual_tile = if row < 8 {
                base_tile
            } else {
                base_tile + 1
            };
            let tile_row = row % 8;
            bank + (actual_tile * 16) + tile_row as u16
        };
        tile_addr
    }

    fn load_sprite_slot(&mut self, i: usize, sprite_size: i16)
        requires
            old(self).wf(),
            i % 4 == 0,
            i < 256,
            old(self)@.sprite_count < 8,
            on_line(old(self)@, i as int / 4),
            sprite_size == sprite_height(old(self)@),
        ensures
            final(self)@ == load_sprite(old(self)@, i as int / 4),
            final(self).wf(),
    {
        let attributes = self.oam[i + 2];
        let x_pos = self.oam[i + 3];
        let tile_addr = self.sprite_tile_address(i, sprite_size);
        let pattern_low = self.read_ppu_address(tile_addr);
        let pattern_high = self.read_ppu_address(tile_addr + 8);
        let count = self.sprite_count;
        self.sprite_patterns_low[count] = pattern_low;
        self.sprite_patterns_high[count] = pattern_high;
        self.sprite_attributes[count] = attributes;
        self.sprite_positions_x[count] = x_pos;
        self.sprite_is_zero[count] = i == 0;
        self.sprite_count += 1;
    }

    fn shift_bg_registers(&mut self)
        ensures
            final(self)@ == shift_bg(old(self)@),
    {
        if (self.mask & 0x18) != 0 {
            self.bg_shift_pattern_low <<= 1;
            self.bg_shift_pattern_high <<= 1;
            self.bg_shift_attrib_low <<= 1;
            self.bg_shift_attrib_high <<= 1;
        }
    }

    fn get_bg_pixel(&self) -> (r: (u8, u8))
        requires
            self.wf(),
        ensures
            r == bg_pixel(self@),
    {
        if (self.mask & 0x08) == 0 {
            return (0, 0);
        }
        if self.cycle <= 8 && (self.mask & 0x02) == 0 {
            return (0, 0);
        }
        let bit_mux: u16 = 0x8000 >> self.x;
        let p0: u8 = if (self.bg_shift_pattern_low & bit_mux) != 0 { 1 } else { 0 };
        let p1: u8 = if (self.bg_shift_pattern_high & bit_mux) != 0 { 1 } else { 0 };
        proof {
            lemma_two_bits(p0, p1);
        }
        let bg_color_index = (p1 << 1) | p0;
        let a0: u8 = if (self.bg_shift_attrib_low & bit_mux) != 0 { 1 } else { 0 };
        let a1: u8 = if (self.bg_shift_attrib_high & bit_mux) != 0 { 1 } else { 0 };
        proof {
            lemma_two_bits(a0, a1);
        }
        let bg_palette_index = (a1 << 1) | a0;
        (bg_color_index, bg_palette_index)
    }

    fn fetch_bg_data(&mut self)
        ensures
            final(self)@ == fetch_bg(old(self)@),
    {
        let c = self.cycle % 8;
        if c == 1 {
            let address = 0x2000 | (self.v & 0x0FFF);
            self.bg_next_tile_id = self.read_ppu_address(address);
        } else if c == 3 {
            let address = 0x23C0 | (self.v & 0x0C00) | ((self.v >> 4) & 0x38) | ((self.v >> 2) & 0x07);
            let attribute = self.read_ppu_address(address);
            let shift = ((self.v >> 4) & 0x04) | (self.v & 0x02);
            proof {
                lemma_attribute_shift(self.v);
            }
            self.bg_next_attribute = (attribute >> shift) & 0x03;
        } else if c == 5 {
            let table: u16 = if (self.ctrl & 0x10) != 0 { 0x1000 } else { 0x0000 };
            proof {
                lemma_pattern_address(self.bg_next_tile_id, self.v);
            }
            let fine_y = (self.v >> 12) & 0x07;
            let address = table + ((self.bg_next_tile_id as u16) << 4) + fine_y;
            self.bg_next_pattern_low = self.read_ppu_address(address);
        } else if c == 7 {
            let table: u16 = if (self.ctrl & 0x10) != 0 { 0x1000 } else { 0x0000 };
            proof {
                lemma_pattern_address(self.bg_next_tile_id, self.v);
            }
            let fine_y = (self.v >> 12) & 0x07;
            let address = table + ((self.bg_next_tile_id as u16) << 4) + fine_y + 8;
            self.bg_next_pattern_high = self.read_ppu_address(address);
        } else if c == 0 {
            self.increment_scroll_x();
            if (self.cycle == 256) && (self.mask & 0x18 != 0) {
                self.increment_scroll_y();
            }
        }
    }

    fn load_bg_shift_registers(&mut self)
        ensures
            final(self)@ == load_bg(old(self)@),
    {
        self.bg_shift_pattern_low = (self.bg_shift_pattern_low & 0xFF00) | self.bg_next_pattern_low as u16;
        self.bg_shift_pattern_high = (self.bg_shift_pattern_high & 0xFF00) | self.bg_next_pattern_high as u16;
        let a0: u16 = if (self.bg_next_attribute & 0x01) != 0 { 0xFF } else { 0x00 };
        let a1: u16 = if (self.bg_next_attribute & 0x02) != 0 { 0xFF } else { 0x00 };
        self.bg_shift_attrib_low = (self.bg_shift_attrib_low & 0xFF00) | a0;
        self.bg_shift_attrib_high = (self.bg_shift_attrib_high & 0xFF00) | a1;
    }

    fn increment_scroll_x(&mut self)
        ensures
            final(self)@ == scroll_x(old(self)@),
    {
        if (self.mask & 0x18) == 0 {
            return;
        }
        proof {
            lemma_scroll_bounds(self.v);
        }
        if (self.v & 0x001F) == 31 {
            self.v &= !0x001F;
            self.v ^= 0x0400;
        } else {
            self.v += 1;
        }
    }

    fn increment_scroll_y(&mut self)
        ensures
            final(self)@ == scroll_y(old(self)@),
    {
        if (self.mask & 0x18) == 0 {
            return;
        }
        proof {
            lemma_scroll_bounds(self.v);
        }
        if (self.v & 0x7000) != 0x7000 {
            self.v += 0x1000;
        } else {
            self.v &= !0x7000;
            let mut y = (self.v & 0x03E0) >> 5;
            if y == 29 {
                y = 0;
                self.v ^= 0x0800;
            } else if y == 31 {
                y = 0;
            } else {
                y += 1;
            }
            self.v = (self.v & !0x03E0) | (y << 5);
        }
    }

    fn get_bg_color(&mut self, color_index: u8, palette_index: u8) -> (r: u8)
        ensures
            r == palette_color(old(self)@, color_index, palette_index),
            final(self)@ == old(self)@,
    {
        if color_index == 0 {
            return self.read_ppu_address(0x3F00);
        }
        let address = 0x3F00 + (palette_index as u16 * 4) + color_index as u16;
        self.read_ppu_address(address)
    }

    fn get_sprite_pixel(&self) -> (r: (u8, u8, bool, bool))
        requires
            self.wf(),
        ensures
            r == sprite_pixel(self@),
    {
        if (self.mask & 0x10) == 0 {
            return (0, 0, false, false);
        }
        if self.cycle <= 8 && (self.mask & 0x04) == 0 {
            return (0, 0, false, false);
        }
        let mut i: usize = 0;
        assert(sprite_pixel(self@) == sprite_pixel_from(self@, 0));
        while i < self.sprite_count
            invariant
                self.wf(),
                i <= self.sprite_count,
                sprite_pixel(self@) == sprite_pixel_from(self@, i as int),
            decreases self.sprite_count - i,
        {
            let offset = (self.cycle as i32 - 1) - self.sprite_positions_x[i] as i32;
            if 0 <= offset && offset < 8 {
                proof {
                    lemma_small_cast(offset);
                }
                let bit_shift = if (self.sprite_attributes[i] & 0x40) != 0 {
                    offset as u8
                } else {
                    7 - offset as u8
                };
                let low_bits = self.sprite_patterns_low[i] >> bit_shift;
                let high_bits = self.sprite_patterns_high[i] >> bit_shift;
                let p0 = low_bits & 0x01;
                let p1 = high_bits & 0x01;
                proof {
                    lemma_one_bit(low_bits);
                    lemma_one_bit(high_bits);
                    lemma_two_bits(p0, p1);
                }
                let color_index = (p1 << 1) | p0;
                if color_index != 0 {
                    proof {
                        lemma_attribute_bits(self.sprite_attributes[i as int]);
                    }
                    let palette_index = (self.sprite_attributes[i] & 0x03) + 4;
                    let priority = (self.sprite_attributes[i] & 0x20) == 0;
                    let is_zero = self.sprite_is_zero[i];
                    return (color_index, palette_index, priority, is_zero);
                }
            }
            i += 1;
        }
        (0, 0, false, false)
    }

    fn get_sprite_color(&mut self, color_index: u8, palette_index: u8) -> (r: u8)
        ensures
            r == palette_color(old(self)@, color_index, palette_index),
            final(self)@ == old(self)@,
    {
        if color_index == 0 {
            return self.read_ppu_address(0x3F00);
        }
        let address = 0x3F00 + (palette_index as u16 * 4) + color_index as u16;
        self.read_ppu_address(address)
    }
}

/// Object attribute memory always holds 256 bytes.
pub proof fn lemma_oam_size(p: &Ppu)
    ensures
        p@.oam.len() == 256,
{
}

proof fn lemma_scroll_bounds(v: u16)
    by (bit_vector)
    ensures
        v & 0x001F != 31 ==> v < 0xFFFF,
        v & 0x7000 != 0x7000 ==> v <= 0xEFFF,
        ((v & !0x7000u16) & 0x03E0) >> 5 <= 31,
{
}

proof fn lemma_small_cast(o: i32)
    by (bit_vector)
    requires
        0 <= o < 8,
    ensures
        (o as u8) == o,
        7 - (o as u8) == 7 - o,
{
}

proof fn lemma_fine_x(data: u8)
    by (bit_vector)
    ensures
        data & 0x07 < 8,
{
}

proof fn lemma_one_bit(b: u8)
    by (bit_vector)
    ensures
        b & 0x01 <= 1,
{
}

proof fn lemma_two_bits(lo: u8, hi: u8)
    by (bit_vector)
    requires
        lo <= 1,
        hi <= 1,
    ensures
        (hi << 1) | lo == hi * 2 + lo,
{
}

proof fn lemma_pattern_address(tile: u8, v: u16)
    by (bit_vector)
    ensures
        ((tile as u16) << 4) <= 0xFF0,
        (v >> 12) & 0x07 <= 7,
{
}

proof fn lemma_attribute_bits(attr: u8)
    by (bit_vector)
    ensures
        attr & 0x03 <= 3,
{
}

proof fn lemma_attribute_shift(v: u16)
    by (bit_vector)
    ensures
        ((v >> 4) & 0x04) | (v & 0x02) <= 6,
{
}

proof fn lemma_tile_halves(tile: u8)
    by (bit_vector)
    ensures
        tile & 0x01 == tile % 2,
        tile & 0xFE == tile - tile % 2,
{
}

proof fn lemma_low_bits(a: u16)
    by (bit_vector)
    ensures
        a & 0x0FFF == a % 4096,
        a & 0x001F == a % 32,
        a & 0x3FFF == a % 0x4000,
{
}

proof fn lemma_wrap_15_bits(v: u16, inc: u16)
    by (bit_vector)
    requires
        inc <= 32,
    ensures
        v.wrapping_add(inc) & 0x7FFF == (v + inc) % 0x8000,
{
}

proof fn lemma_latch_keeps_status(status: u8, latch: u8)
    by (bit_vector)
    ensures
        ((((status & 0xE0) | (latch & 0x1F)) & 0xE0) | (latch & 0x1F)) == (status & 0xE0) | (latch & 0x1F),
{
}

} // verus!
