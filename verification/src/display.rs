use vstd::prelude::*;

use crate::memory::registers::{BGP, IF, LCDC, LY, LYC, OGBP0, OGBP1, SCX, SCY, STAT, WX, WY};
use crate::memory::Memory;

verus! {

/// The four phases the PPU cycles through on every scanline.
#[derive(Debug, Copy, Clone, PartialEq, Eq, Structural)]
pub enum PpuMode {
    HorizontalBlank,
    VerticalBlank,
    OAMScan,
    Drawing,
}

/// One 4-byte object attribute entry: Y+16, X+8, tile index, attributes.
#[derive(Debug, Copy, Clone, PartialEq, Eq, Structural)]
pub struct OamEntry {
    pub y: u8,
    pub x: u8,
    pub tile: u8,
    pub attrs: u8,
}

/// The phase that a scanline position dictates: lines 144-153 are vertical
/// blank; below them the first 80 dots scan OAM, drawing runs to dot 251,
/// and the rest of the 456-dot line is horizontal blank.
pub open spec fn mode_for(ly: u8, dot: u16) -> PpuMode {
    if ly >= 144 {
        PpuMode::VerticalBlank
    } else if dot < 80 {
        PpuMode::OAMScan
    } else if dot < 252 {
        PpuMode::Drawing
    } else {
        PpuMode::HorizontalBlank
    }
}

/// The two STAT mode bits of a phase.
pub open spec fn mode_bits(m: PpuMode) -> u8 {
    match m {
        PpuMode::HorizontalBlank => 0,
        PpuMode::VerticalBlank => 1,
        PpuMode::OAMScan => 2,
        PpuMode::Drawing => 3,
    }
}

/// Whether LCDC bit 7 has the LCD running.
pub open spec fn lcd_on(m: Memory) -> bool {
    m.block[LCDC as int] & 0x80 != 0
}

/// The sprite height LCDC bit 2 selects.
pub open spec fn sprite_height(m: Memory) -> int {
    if m.block[LCDC as int] & 0x04 != 0 {
        16
    } else {
        8
    }
}

/// The OAM entry at an index of the 40-entry table.
pub open spec fn oam_entry(m: Memory, i: int) -> OamEntry {
    OamEntry {
        y: m.block[0xfe00 + 4 * i],
        x: m.block[0xfe00 + 4 * i + 1],
        tile: m.block[0xfe00 + 4 * i + 2],
        attrs: m.block[0xfe00 + 4 * i + 3],
    }
}

/// Whether an entry's Y range covers a scanline.
pub open spec fn covers_line(e: OamEntry, ly: u8, h: int) -> bool {
    e.y <= ly + 16 < e.y + h
}

/// The entries of the first `i` OAM slots whose Y range covers the line, in
/// table order.
pub open spec fn scanned(m: Memory, ly: u8, h: int, i: int) -> Seq<OamEntry>
    decreases i,
{
    if i <= 0 {
        Seq::empty()
    } else {
        scanned(m, ly, h, i - 1) + (if covers_line(oam_entry(m, i - 1), ly, h) {
            seq![oam_entry(m, i - 1)]
        } else {
            Seq::empty()
        })
    }
}

/// A selection capped at the hardware limit of ten entries per line.
pub open spec fn cap10(s: Seq<OamEntry>) -> Seq<OamEntry> {
    if s.len() <= 10 {
        s
    } else {
        s.take(10)
    }
}

/// The base of the tile map selected for the background or the window.
pub open spec fn map_base(lcdc: u8, window: bool) -> int {
    if window {
        if lcdc & 0x40 != 0 {
            0x9c00
        } else {
            0x9800
        }
    } else {
        if lcdc & 0x08 != 0 {
            0x9c00
        } else {
            0x9800
        }
    }
}

/// The address of a tile row in the block LCDC bit 4 selects: unsigned
/// indices from 0x8000, or signed indices around 0x9000.
pub open spec fn tile_row_addr(lcdc: u8, id: u8, row: int) -> int {
    (if lcdc & 0x10 != 0 {
        0x8000 + id * 16
    } else if id >= 128 {
        0x8800 + (id - 128) * 16
    } else {
        0x9000 + id * 16
    }) + 2 * row
}

/// The 2-bit colour index of a map pixel: look the tile up in the map, then
/// pick the pixel's two bits out of the tile row.
pub open spec fn map_color(m: Memory, lcdc: u8, base: int, px: int, py: int) -> u8 {
    let id = m.block[base + (py / 8) * 32 + px / 8];
    let a = tile_row_addr(lcdc, id, py % 8);
    let bit = (7 - px % 8) as u8;
    ((m.block[a] >> bit) & 1) | (((m.block[a + 1] >> bit) & 1) << 1)
}

/// Whether the window hides the background at a pixel.
pub open spec fn window_at(m: Memory, ly: int, x: int) -> bool {
    &&& m.block[LCDC as int] & 0x20 != 0
    &&& m.block[WY as int] <= ly
    &&& x + 7 >= m.block[WX as int]
}

/// The background or window colour index of a pixel; all zero when LCDC
/// bit 0 disables both.
pub open spec fn bgwin_color(m: Memory, ly: int, x: int, wl: u8) -> u8 {
    let lcdc = m.block[LCDC as int];
    if lcdc & 0x01 == 0 {
        0
    } else if window_at(m, ly, x) {
        map_color(m, lcdc, map_base(lcdc, true), x + 7 - m.block[WX as int], wl as int)
    } else {
        map_color(
            m,
            lcdc,
            map_base(lcdc, false),
            (x + m.block[SCX as int]) % 256,
            (ly + m.block[SCY as int]) % 256,
        )
    }
}

/// The 2-bit colour index of a sprite at a pixel, honouring the two flip
/// bits; zero (transparent) off the sprite's 8-pixel window or row range.
pub open spec fn sprite_color(m: Memory, e: OamEntry, ly: int, x: int, h: int) -> u8 {
    let row0 = ly + 16 - e.y;
    let bitpos = x + 8 - e.x;
    if 0 <= row0 < h && 0 <= bitpos < 8 {
        let row = if e.attrs & 0x40 != 0 {
            h - 1 - row0
        } else {
            row0
        };
        let tile = if h == 16 {
            e.tile & 0xfe
        } else {
            e.tile
        };
        let a = 0x8000 + tile * 16 + 2 * row;
        let bit = (if e.attrs & 0x20 != 0 {
            bitpos
        } else {
            7 - bitpos
        }) as u8;
        ((m.block[a] >> bit) & 1) | (((m.block[a + 1] >> bit) & 1) << 1)
    } else {
        0
    }
}

/// The first sprite of the line buffer, from slot `i` on, that is opaque at
/// the pixel.
pub open spec fn first_sprite(m: Memory, s: Seq<OamEntry>, ly: int, x: int, h: int, i: int) -> Option<OamEntry>
    decreases s.len() - i,
{
    if i < 0 || i >= s.len() {
        None
    } else if sprite_color(m, s[i], ly, x, h) != 0 {
        Some(s[i])
    } else {
        first_sprite(m, s, ly, x, h, i + 1)
    }
}

/// Map a colour index through a palette byte: two bits per index.
pub open spec fn shade_of(pal: u8, idx: u8) -> u8 {
    (pal >> ((2 * (idx % 4)) as u8)) & 3
}

/// The object palette an entry's attribute bit 4 selects.
pub open spec fn obp_of(m: Memory, e: OamEntry) -> u8 {
    if e.attrs & 0x10 != 0 {
        m.block[OGBP1 as int]
    } else {
        m.block[OGBP0 as int]
    }
}

/// The final shade of one pixel: merge the background or window colour with
/// the first opaque sprite; a sprite loses only to a non-zero background
/// colour when its priority bit is set.
pub open spec fn line_pixel(m: Memory, s: Seq<OamEntry>, wl: u8, ly: int, x: int) -> u8 {
    let lcdc = m.block[LCDC as int];
    let bg = bgwin_color(m, ly, x, wl);
    let sp = if lcdc & 0x02 != 0 {
        first_sprite(m, s, ly, x, sprite_height(m), 0)
    } else {
        None
    };
    match sp {
        None => shade_of(m.block[BGP as int], bg),
        Some(e) => if e.attrs & 0x80 != 0 && bg != 0 {
            shade_of(m.block[BGP as int], bg)
        } else {
            shade_of(obp_of(m, e), sprite_color(m, e, ly, x, sprite_height(m)))
        },
    }
}

/// The pixel-processing unit: the dot position inside the scanline, the
/// current phase, the per-line sprite selection, the 160 by 144 frame of
/// 2-bit shades, and the window line counter.
pub struct Ppu {
    pub mode: PpuMode,
    pub dot: u16,
    pub scanline: u16,
    pub obj_penalty: usize,
    pub frame_buffer: Vec<u8>,
    pub sprite_buffer: Vec<OamEntry>,
    pub window_line: u8,
    pub stat_line: bool,
    pub frame_ready: bool,
}

impl Ppu {
    /// Structural soundness: the dot stays inside one scanline, the frame
    /// buffer covers the screen, and at most ten sprites are selected.
    pub open spec fn inv(self) -> bool {
        &&& self.dot < 456
        &&& self.frame_buffer.len() == 23040
        &&& self.sprite_buffer.len() <= 10
    }

    /// PPU phase consistency: while the LCD runs, the phase is the one the
    /// scanline position dictates.
    pub open spec fn mode_ok(self, m: Memory) -> bool {
        lcd_on(m) ==> self.mode == mode_for(m.block[LY as int], self.dot)
    }

    /// Walk the 40 OAM entries and select those whose Y range covers the
    /// scanline; the hardware keeps at most the first ten, earlier table
    /// entries winning.
    pub fn oam_scan(&mut self, mem: &mut Memory, scanline: u8)
        requires
            old(mem).wf(),
        ensures
            *final(mem) == *old(mem),
            final(self).sprite_buffer@ == cap10(
                scanned(*old(mem), scanline, sprite_height(*old(mem)), 40),
            ),
            final(self).sprite_buffer.len() <= 10,
            final(self).mode == old(self).mode,
            final(self).dot == old(self).dot,
            final(self).scanline == old(self).scanline,
            final(self).obj_penalty == old(self).obj_penalty,
            final(self).frame_buffer == old(self).frame_buffer,
            final(self).window_line == old(self).window_line,
            final(self).stat_line == old(self).stat_line,
            final(self).frame_ready == old(self).frame_ready,
    {
        let lcdc = mem.block[LCDC];
        let h: u16 = if lcdc & 0x04 != 0 {
            16
        } else {
            8
        };
        let mut buf: Vec<OamEntry> = Vec::new();
        let mut i: usize = 0;
        while i < 40
            invariant
                mem.wf(),
                *mem == *old(mem),
                0 <= i <= 40,
                h == sprite_height(*mem),
                buf@ == cap10(scanned(*mem, scanline, h as int, i as int)),
                buf.len() <= 10,
            decreases 40 - i,
        {
            let y = mem.block[0xfe00 + 4 * i];
            let x = mem.block[0xfe00 + 4 * i + 1];
            let tile = mem.block[0xfe00 + 4 * i + 2];
            let attrs = mem.block[0xfe00 + 4 * i + 3];
            let e = OamEntry { y, x, tile, attrs };
            let covers = (y as u16) <= (scanline as u16) + 16 && (scanline as u16) + 16 < (y
                as u16) + h;
            proof {
                assert(e == oam_entry(*mem, i as int));
                assert(covers == covers_line(e, scanline, h as int));
            }
            if covers && buf.len() < 10 {
                buf.push(e);
            }
            proof {
                let s_i = scanned(*mem, scanline, h as int, i as int);
                let s_n = scanned(*mem, scanline, h as int, i as int + 1);
                if covers_line(e, scanline, h as int) {
                    assert(s_n =~= s_i + seq![e]);
                    if s_i.len() >= 10 {
                        assert(cap10(s_n) =~= cap10(s_i));
                    }
                } else {
                    assert(s_n =~= s_i);
                }
            }
            i = i + 1;
        }
        self.sprite_buffer = buf;
    }

    /// Draw one scanline: compute the 160 pixel shades from the tile maps,
    /// the tile data and the selected sprites, and advance the window line
    /// counter when the window was visible on the line.
    pub fn render_scanline(&mut self, mem: &mut Memory, ly: u8)
        requires
            old(mem).wf(),
            old(self).inv(),
            ly < 144,
        ensures
            *final(mem) == *old(mem),
            final(self).inv(),
            forall|x: int|
                0 <= x < 160 ==> final(self).frame_buffer@[ly * 160 + x] == line_pixel(
                    *old(mem),
                    old(self).sprite_buffer@,
                    old(self).window_line,
                    ly as int,
                    x,
                ),
            forall|k: int|
                0 <= k < 23040 && !(ly * 160 <= k < ly * 160 + 160)
                    ==> final(self).frame_buffer@[k] == old(self).frame_buffer@[k],
            final(self).window_line == (if window_drawn(*old(mem), ly as int) {
                old(self).window_line.wrapping_add(1)
            } else {
                old(self).window_line
            }),
            final(self).mode == old(self).mode,
            final(self).dot == old(self).dot,
            final(self).scanline == old(self).scanline,
            final(self).obj_penalty == old(self).obj_penalty,
            final(self).sprite_buffer == old(self).sprite_buffer,
            final(self).stat_line == old(self).stat_line,
            final(self).frame_ready == old(self).frame_ready,
    {
        let base: usize = (ly as usize) * 160;
        let mut x: usize = 0;
        while x < 160
            invariant
                mem.wf(),
                *mem == *old(mem),
                self.inv(),
                ly < 144,
                base == ly * 160,
                0 <= x <= 160,
                self.sprite_buffer == old(self).sprite_buffer,
                self.window_line == old(self).window_line,
                self.mode == old(self).mode,
                self.dot == old(self).dot,
                self.scanline == old(self).scanline,
                self.obj_penalty == old(self).obj_penalty,
                self.stat_line == old(self).stat_line,
                self.frame_ready == old(self).frame_ready,
                forall|j: int|
                    0 <= j < x ==> self.frame_buffer@[base + j] == line_pixel(
                        *mem,
                        self.sprite_buffer@,
                        self.window_line,
                        ly as int,
                        j,
                    ),
                forall|k: int|
                    0 <= k < 23040 && !(base <= k < base + x) ==> self.frame_buffer@[k] == old(
                        self,
                    ).frame_buffer@[k],
            decreases 160 - x,
        {
            let p = pixel_at(mem, &self.sprite_buffer, self.window_line, ly, x as u8);
            self.frame_buffer[base + x] = p;
            x = x + 1;
        }
        let lcdc = mem.block[LCDC];
        let wy = mem.block[WY];
        let wx = mem.block[WX];
        if lcdc & 0x20 != 0 && lcdc & 0x01 != 0 && wy <= ly && wx <= 166 {
            self.window_line = self.window_line.wrapping_add(1);
        }
    }

    /// A PPU at the top-left corner of a fresh frame.
    pub fn new() -> (r: Self)
        ensures
            r.inv(),
            r.dot == 0,
            r.mode == PpuMode::OAMScan,
            r.frame_buffer.len() == 23040,
            forall|i: int| 0 <= i < 23040 ==> r.frame_buffer[i] == 0,
            !r.frame_ready,
    {
        Ppu {
            mode: PpuMode::OAMScan,
            dot: 0,
            scanline: 0,
            obj_penalty: 0,
            frame_buffer: crate::memory::alloc_zeroed(23040),
            sprite_buffer: Vec::new(),
            window_line: 0,
            stat_line: false,
            frame_ready: false,
        }
    }
}

/// While the LCD runs, the PPU phase matches the scanline position: lines
/// 144 and above are vertical blank; on a visible line the first 80 dots
/// scan OAM, drawing follows until it completes at dot 251, and horizontal
/// blank fills the line out to dot 455.
pub proof fn lemma_mode_matches_position(p: Ppu, m: Memory)
    requires
        p.mode_ok(m),
        lcd_on(m),
    ensures
        m.block[LY as int] >= 144 ==> p.mode == PpuMode::VerticalBlank,
        m.block[LY as int] < 144 && p.dot < 80 ==> p.mode == PpuMode::OAMScan,
        m.block[LY as int] < 144 && 80 <= p.dot < 252 ==> p.mode == PpuMode::Drawing,
        m.block[LY as int] < 144 && p.dot >= 252 ==> p.mode == PpuMode::HorizontalBlank,
{
}

/// Whether the window is drawn anywhere on a line, which is when its line
/// counter advances.
pub open spec fn window_drawn(m: Memory, ly: int) -> bool {
    &&& m.block[LCDC as int] & 0x20 != 0
    &&& m.block[LCDC as int] & 0x01 != 0
    &&& m.block[WY as int] <= ly
    &&& m.block[WX as int] <= 166
}

/// The colour index of a background or window map pixel.
fn map_color_at(mem: &Memory, lcdc: u8, base: usize, px: usize, py: usize) -> (r: u8)
    requires
        mem.wf(),
        base == 0x9800 || base == 0x9c00,
        px < 256,
        py < 256,
    ensures
        r == map_color(*mem, lcdc, base as int, px as int, py as int),
{
    let id = mem.block[base + (py / 8) * 32 + px / 8];
    let t: usize = if lcdc & 0x10 != 0 {
        0x8000 + (id as usize) * 16
    } else if id >= 128 {
        0x8800 + ((id - 128) as usize) * 16
    } else {
        0x9000 + (id as usize) * 16
    };
    let a = t + 2 * (py % 8);
    let bit = (7 - (px % 8)) as u8;
    ((mem.block[a] >> bit) & 1) | (((mem.block[a + 1] >> bit) & 1) << 1)
}

/// The background or window colour index of a screen pixel.
fn bgwin_color_at(mem: &Memory, ly: u8, x: u8, wl: u8) -> (r: u8)
    requires
        mem.wf(),
        ly < 144,
        x < 160,
    ensures
        r == bgwin_color(*mem, ly as int, x as int, wl),
{
    let lcdc = mem.block[LCDC];
    if lcdc & 0x01 == 0 {
        return 0;
    }
    let wy = mem.block[WY];
    let wx = mem.block[WX];
    if lcdc & 0x20 != 0 && wy <= ly && (x as u16) + 7 >= wx as u16 {
        let b: usize = if lcdc & 0x40 != 0 {
            0x9c00
        } else {
            0x9800
        };
        let px = (x as usize) + 7 - (wx as usize);
        map_color_at(mem, lcdc, b, px, wl as usize)
    } else {
        let b: usize = if lcdc & 0x08 != 0 {
            0x9c00
        } else {
            0x9800
        };
        let scx = mem.block[SCX];
        let scy = mem.block[SCY];
        let px = ((x as usize) + (scx as usize)) % 256;
        let py = ((ly as usize) + (scy as usize)) % 256;
        map_color_at(mem, lcdc, b, px, py)
    }
}

/// The colour index of one sprite at a screen pixel; zero off the sprite.
fn sprite_color_at(mem: &Memory, e: OamEntry, ly: u8, x: u8, h: u16) -> (r: u8)
    requires
        mem.wf(),
        h == 8 || h == 16,
    ensures
        r == sprite_color(*mem, e, ly as int, x as int, h as int),
{
    let ly16: u16 = (ly as u16) + 16;
    let x8: u16 = (x as u16) + 8;
    if !((e.y as u16) <= ly16 && ly16 < (e.y as u16) + h) {
        return 0;
    }
    if !((e.x as u16) <= x8 && x8 < (e.x as u16) + 8) {
        return 0;
    }
    let row0 = ly16 - (e.y as u16);
    let bitpos = x8 - (e.x as u16);
    let row: u16 = if e.attrs & 0x40 != 0 {
        h - 1 - row0
    } else {
        row0
    };
    let tile: u8 = if h == 16 {
        e.tile & 0xfe
    } else {
        e.tile
    };
    let a: usize = 0x8000 + (tile as usize) * 16 + 2 * (row as usize);
    let bit: u8 = if e.attrs & 0x20 != 0 {
        bitpos as u8
    } else {
        (7 - bitpos) as u8
    };
    ((mem.block[a] >> bit) & 1) | (((mem.block[a + 1] >> bit) & 1) << 1)
}

/// Map a colour index through a palette byte.
fn shade_exec(pal: u8, idx: u8) -> (r: u8)
    ensures
        r == shade_of(pal, idx),
{
    (pal >> (2 * (idx % 4))) & 3
}

/// The final shade of one screen pixel.
fn pixel_at(mem: &Memory, sprites: &Vec<OamEntry>, wl: u8, ly: u8, x: u8) -> (r: u8)
    requires
        mem.wf(),
        ly < 144,
        x < 160,
    ensures
        r == line_pixel(*mem, sprites@, wl, ly as int, x as int),
{
    let lcdc = mem.block[LCDC];
    let bg = bgwin_color_at(mem, ly, x, wl);
    let h: u16 = if lcdc & 0x04 != 0 {
        16
    } else {
        8
    };
    let mut found: Option<OamEntry> = None;
    if lcdc & 0x02 != 0 {
        let mut i: usize = 0;
        while i < sprites.len()
            invariant
                mem.wf(),
                ly < 144,
                x < 160,
                h == sprite_height(*mem),
                0 <= i <= sprites.len(),
                (match found {
                    None => first_sprite(*mem, sprites@, ly as int, x as int, h as int, 0)
                        == first_sprite(*mem, sprites@, ly as int, x as int, h as int, i as int),
                    Some(e) => first_sprite(*mem, sprites@, ly as int, x as int, h as int, 0)
                        == Some(e),
                }),
            decreases sprites.len() - i,
        {
            let e = sprites[i];
            if found.is_none() {
                let sc = sprite_color_at(mem, e, ly, x, h);
                if sc != 0 {
                    proof {
                        assert(first_sprite(*mem, sprites@, ly as int, x as int, h as int, i as int)
                            == Some(sprites@[i as int]));
                    }
                    found = Some(e);
                }
            }
            i = i + 1;
        }
    }
    match found {
        None => shade_exec(mem.block[BGP], bg),
        Some(e) => {
            if e.attrs & 0x80 != 0 && bg != 0 {
                shade_exec(mem.block[BGP], bg)
            } else {
                let sc = sprite_color_at(mem, e, ly, x, h);
                let pal = if e.attrs & 0x10 != 0 {
                    mem.block[OGBP1]
                } else {
                    mem.block[OGBP0]
                };
                shade_exec(pal, sc)
            }
        }
    }
}

/// Where a PPU step may touch the bus: LY, STAT and IF move with the
/// scanline machinery, the access gates follow the phase, and nothing else
/// changes.
pub open spec fn ppu_mem_frame(a: Memory, b: Memory) -> bool {
    &&& b.cartridge == a.cartridge
    &&& b.ext_ram@ == a.ext_ram@
    &&& b.mbc == a.mbc
    &&& b.rom_banks@ == a.rom_banks@
    &&& b.div_counter == a.div_counter
    &&& b.dma_active == a.dma_active
    &&& b.dma_source == a.dma_source
    &&& b.dma_remaining == a.dma_remaining
    &&& b.block@.len() == a.block@.len()
    &&& forall|i: int|
        0 <= i < a.block@.len() && i != LY && i != STAT && i != IF ==> b.block@[i] == a.block@[i]
}

impl Ppu {
    /// Advance the PPU by one dot: cross scanline and frame boundaries,
    /// scan OAM at a line's start, draw at the start of mode 3, keep the
    /// access gates and the STAT register in step, and raise the VBlank and
    /// STAT interrupts; a disabled LCD holds the PPU blanked at line 0.
    fn advance_dot(&mut self, mem: &mut Memory)
        requires
            old(mem).wf(),
            old(self).inv(),
        ensures
            final(mem).wf(),
            final(self).inv(),
            final(self).mode_ok(*final(mem)),
            ppu_mem_frame(*old(mem), *final(mem)),
    {
        let lcdc = mem.block[LCDC];
        if lcdc & 0x80 == 0 {
            mem.set_reg(LY, 0);
            self.dot = 0;
            self.mode = PpuMode::HorizontalBlank;
            mem.oam_accessible = true;
            mem.vram_accessible = true;
            let stat = mem.block[STAT];
            mem.set_reg(STAT, stat & 0xf8);
            return ;
        }
        self.dot = self.dot + 1;
        if self.dot == 456 {
            self.dot = 0;
            mem.inc_scanline();
            let ly0 = mem.block[LY];
            if ly0 == 144 {
                let f = mem.block[IF];
                mem.set_reg(IF, f | 0x01);
            }
            if ly0 == 0 {
                self.frame_ready = true;
                self.window_line = 0;
            }
        }
        let ly = mem.block[LY];
        if ly < 144 && self.dot == 0 {
            self.oam_scan(mem, ly);
        }
        if ly < 144 && self.dot == 80 {
            self.render_scanline(mem, ly);
        }
        let new_mode = if ly >= 144 {
            PpuMode::VerticalBlank
        } else if self.dot < 80 {
            PpuMode::OAMScan
        } else if self.dot < 252 {
            PpuMode::Drawing
        } else {
            PpuMode::HorizontalBlank
        };
        match new_mode {
            PpuMode::OAMScan => {
                mem.oam_accessible = false;
                mem.vram_accessible = true;
            }
            PpuMode::Drawing => {
                mem.oam_accessible = false;
                mem.vram_accessible = false;
            }
            _ => {
                mem.oam_accessible = true;
                mem.vram_accessible = true;
            }
        }
        self.mode = new_mode;
        let lyc = mem.block[LYC];
        let coincidence = ly == lyc;
        let stat = mem.block[STAT];
        let mb: u8 = match new_mode {
            PpuMode::HorizontalBlank => 0,
            PpuMode::VerticalBlank => 1,
            PpuMode::OAMScan => 2,
            PpuMode::Drawing => 3,
        };
        let ns = ((stat & 0xf8) | (if coincidence {
            4u8
        } else {
            0u8
        })) | mb;
        mem.set_reg(STAT, ns);
        let line = ((stat & 0x08 != 0) && mb == 0) || ((stat & 0x10 != 0) && mb == 1) || ((stat
            & 0x20 != 0) && mb == 2) || ((stat & 0x40 != 0) && coincidence);
        if line && !self.stat_line {
            let f = mem.block[IF];
            mem.set_reg(IF, f | 0x02);
        }
        self.stat_line = line;
    }

    /// Advance the PPU by a number of dots, one at a time.
    pub fn step(&mut self, mem: &mut Memory, dots: u32)
        requires
            old(mem).wf(),
            old(self).inv(),
        ensures
            final(mem).wf(),
            final(self).inv(),
            ppu_mem_frame(*old(mem), *final(mem)),
            dots > 0 ==> final(self).mode_ok(*final(mem)),
            dots == 0 ==> *final(self) == *old(self) && *final(mem) == *old(mem),
    {
        let mut left: u32 = dots;
        while left > 0
            invariant
                mem.wf(),
                self.inv(),
                left <= dots,
                ppu_mem_frame(*old(mem), *mem),
                left < dots ==> self.mode_ok(*mem),
                left == dots ==> *mem == *old(mem) && *self == *old(self),
            decreases left,
        {
            self.advance_dot(mem);
            left = left - 1;
        }
    }
}

} // verus!
