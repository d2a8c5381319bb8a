//! Picture engine: the scanline state machine and the line compositor.
use vstd::prelude::*;

verus! {

/// An RGB color.
pub type Color = [u8; 3];

/// The four shades of monochrome mode, lightest first.
pub type Palette = [Color; 4];

/// Clock cycles per scanline.
pub const DOTS_PER_LINE: u16 = 456;

/// Scanlines per frame, including the vertical-blank lines.
pub const LINES_PER_FRAME: u8 = 154;

/// Visible scanlines.
pub const VISIBLE_LINES: u8 = 144;

/// Dot at which the OAM scan ends and drawing starts.
pub const OAM_SCAN_END: u16 = 80;

/// Dot at which drawing ends and the horizontal blank starts.
pub const DRAW_END: u16 = 252;

/// Clock cycles per frame.
pub const FRAME_DOTS: u64 = 70224;

/// Pixels per scanline.
pub const SCREEN_WIDTH: usize = 160;

/// The plain gray palette.
pub open spec fn grayscale_spec() -> Palette {
    [[0xff, 0xff, 0xff], [0xaa, 0xaa, 0xaa], [0x55, 0x55, 0x55], [0x00, 0x00, 0x00]]
}

/// The plain gray palette.
pub fn grayscale() -> (r: Palette)
    ensures
        r == grayscale_spec(),
{
    [[0xff, 0xff, 0xff], [0xaa, 0xaa, 0xaa], [0x55, 0x55, 0x55], [0x00, 0x00, 0x00]]
}

/// A row of pixels as RGBA bytes, fully opaque.
pub fn rgba_row(pixels: &[Color; 160]) -> (r: Vec<u8>)
    ensures
        r@.len() == 640,
        forall|i: int|
            0 <= i < 160 ==> r@[4 * i] == pixels[i][0] && r@[4 * i + 1] == pixels[i][1] && r@[4 * i
                + 2] == pixels[i][2] && r@[4 * i + 3] == 0xff,
{
    let mut r: Vec<u8> = Vec::with_capacity(640);
    let mut i: usize = 0;
    while i < 160
        invariant
            i <= 160,
            r@.len() == 4 * i,
            forall|j: int|
                0 <= j < i ==> r@[4 * j] == pixels[j][0] && r@[4 * j + 1] == pixels[j][1] && r@[4 * j
                    + 2] == pixels[j][2] && r@[4 * j + 3] == 0xff,
        decreases 160 - i,
    {
        let c = pixels[i];
        r.push(c[0]);
        r.push(c[1]);
        r.push(c[2]);
        r.push(0xff);
        i = i + 1;
    }
    r
}

/// Where finished scanlines go.
pub trait VideoOutput {
    /// Whether the display keeps a log of the lines it received.
    open spec fn keeps_log() -> bool {
        false
    }

    /// The lines received so far, in order, for a display that keeps a log.
    open spec fn lines(&self) -> Seq<int> {
        Seq::empty()
    }

    /// Receives the pixels of visible scanline `line`.
    fn render_line(&mut self, line: usize, pixels: &[Color; 160])
        requires
            line < 144,
        ensures
            Self::keeps_log() ==> final(self).lines() == old(self).lines().push(line as int),
    ;
}

/// No display: finished lines are dropped.
impl VideoOutput for () {
    fn render_line(&mut self, line: usize, pixels: &[Color; 160]) {
    }
}

/// A display that only records which lines it received.
pub struct LineLog {
    pub lines: Ghost<Seq<int>>,
    /// Number of lines received.
    pub count: u64,
}

impl LineLog {
    pub fn new() -> (r: LineLog)
        ensures
            r.lines@ == Seq::<int>::empty(),
            r.count == 0,
    {
        LineLog { lines: Ghost(Seq::empty()), count: 0 }
    }
}

impl VideoOutput for LineLog {
    open spec fn keeps_log() -> bool {
        true
    }

    open spec fn lines(&self) -> Seq<int> {
        self.lines@
    }

    fn render_line(&mut self, line: usize, pixels: &[Color; 160]) {
        proof {
            self.lines@ = self.lines@.push(line as int);
        }
        self.count = self.count.wrapping_add(1);
    }
}

/// Mode of the picture engine at a point of the frame: 2 (OAM scan), 3 (drawing),
/// 0 (horizontal blank) on visible lines, 1 (vertical blank) on the others.
pub open spec fn mode_at(line: int, dot: int) -> u8 {
    if line >= 144 {
        1
    } else if dot < 80 {
        2
    } else if dot < 252 {
        3
    } else {
        0
    }
}

/// The line whose pixels are emitted when the frame reaches position `p`, if any.
pub open spec fn emitted_at(p: int) -> Option<int> {
    if p % 456 == 252 && p / 456 < 144 {
        Some(p / 456)
    } else {
        None
    }
}

/// Lines emitted, in order, while `n` cycles elapse from frame position `p`.
pub open spec fn lines_in(p: int, n: nat) -> Seq<int>
    decreases n,
{
    if n == 0 {
        seq![]
    } else {
        let prev = lines_in(p, (n - 1) as nat);
        match emitted_at((p + n) % 70224) {
            Some(l) => prev.push(l),
            None => prev,
        }
    }
}

/// Whether the vertical blank starts while `n` cycles elapse from frame position `p`.
pub open spec fn vblank_in(p: int, n: nat) -> bool
    decreases n,
{
    n > 0 && (vblank_in(p, (n - 1) as nat) || (p + n) % 70224 == 144 * 456)
}

/// Picture-engine registers and scanline state.
pub struct Ppu {
    pub lcdc: u8,
    /// Interrupt-select bits 3 to 6 of `STAT`.
    pub stat: u8,
    pub scy: u8,
    pub scx: u8,
    pub ly: u8,
    pub lyc: u8,
    pub bgp: u8,
    pub obp0: u8,
    pub obp1: u8,
    pub wy: u8,
    pub wx: u8,
    /// Cycle within the current scanline.
    pub dot: u16,
    pub mode: u8,
    pub palette: Palette,
    /// Lines emitted so far, in order.
    pub rendered: Ghost<Seq<int>>,
    /// Number of times the LCD has been switched off.
    pub resets: Ghost<nat>,
    /// Color mode: colors come from palette memory instead of the shade table.
    pub cgb: bool,
    /// Background palette memory: eight palettes of four little-endian RGB555 colors.
    pub bg_cram: [u8; 64],
    /// Sprite palette memory, laid out as `bg_cram`.
    pub obj_cram: [u8; 64],
    /// Background palette index (bits 0 to 5) and auto-increment flag (bit 7).
    pub bcps: u8,
    /// Sprite palette index and auto-increment flag.
    pub ocps: u8,
}

/// A five-bit color channel widened to eight bits.
pub open spec fn widen5(c: u8) -> u8 {
    (c << 3u8) | (c >> 2u8)
}

/// Color `ci` of palette `pal` in palette memory `cram`.
pub open spec fn cram_color(cram: [u8; 64], pal: int, ci: int) -> Color {
    let lo = cram[pal * 8 + ci * 2];
    let hi = cram[pal * 8 + ci * 2 + 1];
    [widen5(lo & 31), widen5(((lo >> 5u8) | (hi << 3u8)) & 31), widen5((hi >> 2u8) & 31)]
}

fn cram_color_exec(cram: &[u8; 64], pal: u8, ci: u8) -> (r: Color)
    requires
        pal < 8,
        ci < 4,
    ensures
        r == cram_color(*cram, pal as int, ci as int),
{
    let i = pal as usize * 8 + ci as usize * 2;
    let lo = cram[i];
    let hi = cram[i + 1];
    let r5 = lo & 31;
    let g5 = ((lo >> 5u8) | (hi << 3u8)) & 31;
    let b5 = (hi >> 2u8) & 31;
    [(r5 << 3u8) | (r5 >> 2u8), (g5 << 3u8) | (g5 >> 2u8), (b5 << 3u8) | (b5 >> 2u8)]
}

/// The color index (0 to 3) of pixel `(x, y)` of the tile whose 16 bytes start at
/// `base` in video memory.
pub open spec fn tile_pixel_spec(vram: Seq<u8>, base: int, x: int, y: int) -> u8 {
    let lo = vram[base + 2 * y];
    let hi = vram[base + 2 * y + 1];
    let bit = (7 - x) as u8;
    (((hi >> bit) & 1) << 1) | ((lo >> bit) & 1)
}

/// Offset in video memory of the data of tile `idx`, by the addressing mode that
/// bit 4 of `LCDC` selects.
pub open spec fn tile_base(lcdc: u8, idx: u8) -> int {
    if lcdc & 0x10 != 0 || idx >= 128 {
        idx as int * 16
    } else {
        0x1000 + idx as int * 16
    }
}

/// The shade that palette register `pal` gives to color index `ci`.
pub open spec fn shade_of(pal: u8, ci: u8) -> u8 {
    (pal >> (2 * ci)) & 3
}

impl Ppu {
    pub fn new(palette: Palette, cgb: bool) -> (r: Ppu)
        ensures
            r.wf(),
            r.cgb == cgb,
            r.lcdc == 0 && r.ly == 0 && r.dot == 0,
            r.palette == palette,
            r.rendered@ == Seq::<int>::empty(),
            r.resets@ == 0,
            r.stat == 0 && r.lyc == 0 && r.mode == 2 && r.bcps == 0 && r.ocps == 0,
            r.scy == 0 && r.scx == 0 && r.bgp == 0 && r.obp0 == 0 && r.obp1 == 0 && r.wy == 0 && r.wx == 0,
            forall|j: int| 0 <= j < 64 ==> r.bg_cram[j] == 0 && r.obj_cram[j] == 0,
    {
        Ppu {
            lcdc: 0,
            stat: 0,
            scy: 0,
            scx: 0,
            ly: 0,
            lyc: 0,
            bgp: 0,
            obp0: 0,
            obp1: 0,
            wy: 0,
            wx: 0,
            dot: 0,
            mode: 2,
            palette,
            rendered: Ghost(Seq::empty()),
            resets: Ghost(0),
            cgb,
            bg_cram: [0u8; 64],
            obj_cram: [0u8; 64],
            bcps: 0,
            ocps: 0,
        }
    }

    pub open spec fn wf(&self) -> bool {
        &&& self.ly < 154
        &&& self.dot < 456
        &&& self.mode == mode_at(self.ly as int, self.dot as int)
    }

    /// Position of the engine within the frame, in cycles.
    pub open spec fn position(&self) -> int {
        self.ly as int * 456 + self.dot as int
    }

    /// The value of `STAT`: the interrupt-select bits, the coincidence flag and
    /// the mode.
    pub open spec fn stat_spec(&self) -> u8 {
        0x80 | (self.stat & 0x78) | (if self.ly == self.lyc { 0x04u8 } else { 0u8 }) | (self.mode & 3)
    }

    pub fn read_stat(&self) -> (r: u8)
        ensures
            r == self.stat_spec(),
    {
        0x80 | (self.stat & 0x78) | (if self.ly == self.lyc { 0x04u8 } else { 0u8 }) | (self.mode & 3)
    }

    pub fn set_palette(&mut self, palette: Palette)
        ensures
            *final(self) == (Ppu { palette, ..*old(self) }),
    {
        self.palette = palette;
    }

    fn tile_pixel(vram: &Vec<u8>, base: usize, x: u8, y: u8) -> (r: u8)
        requires
            vram@.len() == 0x2000,
            base + 16 <= 0x2000,
            x < 8,
            y < 8,
        ensures
            r == tile_pixel_spec(vram@, base as int, x as int, y as int),
            r < 4,
    {
        let lo = vram[base + 2 * y as usize];
        let hi = vram[base + 2 * y as usize + 1];
        let bit: u8 = 7 - x;
        let r = (((hi >> bit) & 1) << 1) | ((lo >> bit) & 1);
        assert((((hi >> bit) & 1) << 1) | ((lo >> bit) & 1) < 4) by (bit_vector);
        r
    }

    /// Color index of pixel `(x, y)` of the 256x256 tile map at `map` (0x1800 or
    /// 0x1c00 in video memory).
    pub open spec fn map_pixel_spec(&self, vram: Seq<u8>, map: int, x: u8, y: u8) -> u8 {
        let idx = vram[map + (y as int / 8) * 32 + x as int / 8];
        tile_pixel_spec(vram, tile_base(self.lcdc, idx), x as int % 8, y as int % 8)
    }

    fn map_pixel(&self, vram: &Vec<u8>, map: usize, x: u8, y: u8) -> (r: u8)
        requires
            vram@.len() == 0x2000,
            map == 0x1800 || map == 0x1c00,
        ensures
            r == self.map_pixel_spec(vram@, map as int, x, y),
            r < 4,
    {
        let idx = vram[map + (y / 8) as usize * 32 + (x / 8) as usize];
        let base: usize = if self.lcdc & 0x10 != 0 || idx >= 128 {
            idx as usize * 16
        } else {
            0x1000 + idx as usize * 16
        };
        Self::tile_pixel(vram, base, x % 8, y % 8)
    }

    /// Background or window color index of screen pixel `x` on line `ly`.
    pub open spec fn bg_pixel_spec(&self, vram: Seq<u8>, x: int) -> u8 {
        if self.lcdc & 0x20 != 0 && self.ly >= self.wy && x + 7 >= self.wx as int {
            let map = if self.lcdc & 0x40 != 0 { 0x1c00 } else { 0x1800 };
            self.map_pixel_spec(vram, map, (x + 7 - self.wx) as u8, (self.ly - self.wy) as u8)
        } else if self.lcdc & 0x01 != 0 {
            let map = if self.lcdc & 0x08 != 0 { 0x1c00 } else { 0x1800 };
            self.map_pixel_spec(vram, map, ((x + self.scx) % 256) as u8, ((self.ly + self.scy) % 256) as u8)
        } else {
            0
        }
    }

    fn bg_pixel(&self, vram: &Vec<u8>, x: u8) -> (r: u8)
        requires
            vram@.len() == 0x2000,
            x < 160,
        ensures
            r == self.bg_pixel_spec(vram@, x as int),
            r < 4,
    {
        if self.lcdc & 0x20 != 0 && self.ly >= self.wy && x as u16 + 7 >= self.wx as u16 {
            let map: usize = if self.lcdc & 0x40 != 0 { 0x1c00 } else { 0x1800 };
            self.map_pixel(vram, map, (x as u16 + 7 - self.wx as u16) as u8, self.ly - self.wy)
        } else if self.lcdc & 0x01 != 0 {
            let map: usize = if self.lcdc & 0x08 != 0 { 0x1c00 } else { 0x1800 };
            self.map_pixel(vram, map, ((x as u16 + self.scx as u16) % 256) as u8,
                ((self.ly as u16 + self.scy as u16) % 256) as u8)
        } else {
            0
        }
    }

    /// Height of sprites, by bit 2 of `LCDC`.
    pub open spec fn sprite_height(&self) -> int {
        if self.lcdc & 0x04 != 0 { 16 } else { 8 }
    }

    /// Whether sprite `i` of the attribute table covers the current line.
    pub open spec fn on_line(&self, oam: Seq<u8>, i: int) -> bool {
        let y = oam[4 * i] as int;
        y <= self.ly as int + 16 < y + self.sprite_height()
    }

    /// The sprites considered among the first `n` of the table: those on the
    /// current line, in table order, at most ten.
    pub open spec fn selected(&self, oam: Seq<u8>, n: nat) -> Seq<int>
        decreases n,
    {
        if n == 0 {
            seq![]
        } else {
            let s = self.selected(oam, (n - 1) as nat);
            if self.on_line(oam, n - 1) && s.len() < 10 {
                s.push(n - 1)
            } else {
                s
            }
        }
    }

    /// Color index of sprite `i` at screen column `x` (0 where it does not cover
    /// the column).
    pub open spec fn sprite_ci(&self, vram: Seq<u8>, oam: Seq<u8>, i: int, x: int) -> u8 {
        let sy = oam[4 * i] as int;
        let sx = oam[4 * i + 1] as int;
        let tile = oam[4 * i + 2];
        let attr = oam[4 * i + 3];
        let h = self.sprite_height();
        if sx <= x + 8 < sx + 8 {
            let row = self.ly as int + 16 - sy;
            let row = if attr & 0x40 != 0 { h - 1 - row } else { row };
            let col = x + 8 - sx;
            let col = if attr & 0x20 != 0 { 7 - col } else { col };
            let t = if h == 16 { tile & 0xfe } else { tile };
            tile_pixel_spec(vram, t as int * 16 + (row / 8) * 16, col, row % 8)
        } else {
            0
        }
    }

    /// The sprite shown at column `x` among the first `k` selected: the first
    /// opaque one with the smallest horizontal position.
    pub open spec fn best_sprite(&self, vram: Seq<u8>, oam: Seq<u8>, sel: Seq<int>, k: nat, x: int)
        -> Option<int>
        decreases k,
    {
        if k == 0 {
            None
        } else {
            let b = self.best_sprite(vram, oam, sel, (k - 1) as nat, x);
            let i = sel[k - 1];
            if self.sprite_ci(vram, oam, i, x) != 0 && (b is None || oam[4 * i + 1] < oam[4
                * b->Some_0 + 1]) {
                Some(i)
            } else {
                b
            }
        }
    }

    /// The finished pixel at column `x` of the current line.
    pub open spec fn pixel_spec(&self, vram: Seq<u8>, oam: Seq<u8>, x: int) -> Color {
        let bg = self.bg_pixel_spec(vram, x);
        let sel = self.selected(oam, 40);
        let best = if self.lcdc & 0x02 != 0 {
            self.best_sprite(vram, oam, sel, sel.len(), x)
        } else {
            None
        };
        let bg_color = if self.cgb {
            cram_color(self.bg_cram, 0, bg as int)
        } else {
            self.palette[shade_of(self.bgp, bg) as int]
        };
        match best {
            Some(i) => {
                let attr = oam[4 * i + 3];
                let ci = self.sprite_ci(vram, oam, i, x);
                if attr & 0x80 != 0 && bg != 0 {
                    bg_color
                } else if self.cgb {
                    cram_color(self.obj_cram, (attr & 7) as int, ci as int)
                } else {
                    let pal = if attr & 0x10 != 0 { self.obp1 } else { self.obp0 };
                    self.palette[shade_of(pal, ci) as int]
                }
            },
            None => bg_color,
        }
    }

    proof fn lemma_selected(&self, oam: Seq<u8>, n: nat)
        ensures
            self.selected(oam, n).len() <= 10,
            forall|j: int|
                0 <= j < self.selected(oam, n).len() ==> 0 <= #[trigger] self.selected(oam, n)[j] < n
                    && self.on_line(oam, self.selected(oam, n)[j]),
        decreases n,
    {
        if n > 0 {
            self.lemma_selected(oam, (n - 1) as nat);
        }
    }

    fn select_sprites(&self, oam: &Vec<u8>) -> (r: Vec<usize>)
        requires
            oam@.len() == 0xa0,
        ensures
            r@.len() == self.selected(oam@, 40).len(),
            forall|j: int| 0 <= j < r@.len() ==> r@[j] == self.selected(oam@, 40)[j],
            forall|j: int| 0 <= j < r@.len() ==> r@[j] < 40,
    {
        let h: u16 = if self.lcdc & 0x04 != 0 { 16 } else { 8 };
        let mut r: Vec<usize> = Vec::new();
        let mut i: usize = 0;
        while i < 40
            invariant
                i <= 40,
                oam@.len() == 0xa0,
                h == self.sprite_height(),
                r@.len() == self.selected(oam@, i as nat).len(),
                forall|j: int| 0 <= j < r@.len() ==> r@[j] == self.selected(oam@, i as nat)[j],
                forall|j: int| 0 <= j < r@.len() ==> r@[j] < i,
            decreases 40 - i,
        {
            let y = oam[4 * i] as u16;
            if y <= self.ly as u16 + 16 && (self.ly as u16 + 16) < y + h && r.len() < 10 {
                r.push(i);
            }
            i = i + 1;
        }
        r
    }

    fn sprite_ci_exec(&self, vram: &Vec<u8>, oam: &Vec<u8>, i: usize, x: u8) -> (r: u8)
        requires
            vram@.len() == 0x2000,
            oam@.len() == 0xa0,
            i < 40,
            x < 160,
            self.on_line(oam@, i as int),
        ensures
            r == self.sprite_ci(vram@, oam@, i as int, x as int),
            r < 4,
    {
        let sy = oam[4 * i] as u16;
        let sx = oam[4 * i + 1] as u16;
        let tile = oam[4 * i + 2];
        let attr = oam[4 * i + 3];
        let h: u16 = if self.lcdc & 0x04 != 0 { 16 } else { 8 };
        if sx <= x as u16 + 8 && (x as u16 + 8) < sx + 8 {
            let row0 = self.ly as u16 + 16 - sy;
            let row = if attr & 0x40 != 0 { h - 1 - row0 } else { row0 };
            let col0 = x as u16 + 8 - sx;
            let col = if attr & 0x20 != 0 { 7 - col0 } else { col0 };
            let t = if h == 16 { tile & 0xfe } else { tile };
            Self::tile_pixel(vram, t as usize * 16 + (row / 8) as usize * 16, col as u8, (row % 8) as u8)
        } else {
            0
        }
    }

    fn render_pixel(&self, vram: &Vec<u8>, oam: &Vec<u8>, sel: &Vec<usize>, x: u8) -> (r: Color)
        requires
            vram@.len() == 0x2000,
            oam@.len() == 0xa0,
            x < 160,
            sel@.len() == self.selected(oam@, 40).len(),
            forall|j: int| 0 <= j < sel@.len() ==> sel@[j] == self.selected(oam@, 40)[j],
            forall|j: int| 0 <= j < sel@.len() ==> sel@[j] < 40,
        ensures
            r == self.pixel_spec(vram@, oam@, x as int),
    {
        let bg = self.bg_pixel(vram, x);
        let ghost gsel = self.selected(oam@, 40);
        proof {
            self.lemma_selected(oam@, 40);
        }
        let mut best: Option<usize> = None;
        let mut best_ci: u8 = 0;
        if self.lcdc & 0x02 != 0 {
            let mut k: usize = 0;
            while k < sel.len()
                invariant
                    k <= sel@.len(),
                    vram@.len() == 0x2000,
                    oam@.len() == 0xa0,
                    x < 160,
                    sel@.len() == gsel.len(),
                    gsel == self.selected(oam@, 40),
                    forall|j: int| 0 <= j < sel@.len() ==> sel@[j] == gsel[j],
                    forall|j: int| 0 <= j < sel@.len() ==> sel@[j] < 40,
                    forall|j: int| 0 <= j < sel@.len() ==> self.on_line(oam@, #[trigger] gsel[j]),
                    best == match self.best_sprite(vram@, oam@, gsel, k as nat, x as int) {
                        Some(i) => Some(i as usize),
                        None => None::<usize>,
                    },
                    best is Some ==> best->Some_0 < 40,
                    best_ci < 4,
                    best is Some ==> best_ci == self.sprite_ci(vram@, oam@, best->Some_0 as int, x as int),
                    self.best_sprite(vram@, oam@, gsel, k as nat, x as int) is Some ==>
                        0 <= self.best_sprite(vram@, oam@, gsel, k as nat, x as int)->Some_0 < 40,
                decreases sel@.len() - k,
            {
                let i = sel[k];
                assert(self.on_line(oam@, gsel[k as int]));
                let ci = self.sprite_ci_exec(vram, oam, i, x);
                let better = match best {
                    None => true,
                    Some(b) => oam[4 * i + 1] < oam[4 * b + 1],
                };
                if ci != 0 && better {
                    best = Some(i);
                    best_ci = ci;
                }
                k = k + 1;
            }
        }
        let bgp = self.bgp;
        let o0 = self.obp0;
        let o1 = self.obp1;
        assert((bgp >> (2 * bg)) & 3 < 4) by (bit_vector);
        assert((o0 >> (2 * best_ci)) & 3 < 4) by (bit_vector);
        assert((o1 >> (2 * best_ci)) & 3 < 4) by (bit_vector);
        let bg_color = if self.cgb {
            cram_color_exec(&self.bg_cram, 0, bg)
        } else {
            self.palette[((self.bgp >> (2 * bg)) & 3) as usize]
        };
        match best {
            Some(i) => {
                let attr = oam[4 * i + 3];
                if attr & 0x80 != 0 && bg != 0 {
                    bg_color
                } else if self.cgb {
                    assert(attr & 7 < 8) by (bit_vector);
                    cram_color_exec(&self.obj_cram, attr & 7, best_ci)
                } else {
                    let pal = if attr & 0x10 != 0 { self.obp1 } else { self.obp0 };
                    self.palette[((pal >> (2 * best_ci)) & 3) as usize]
                }
            },
            None => bg_color,
        }
    }

    /// Composites the current line: background, window and sprites.
    pub fn render_scanline(&self, vram: &Vec<u8>, oam: &Vec<u8>) -> (r: [Color; 160])
        requires
            vram@.len() == 0x2000,
            oam@.len() == 0xa0,
        ensures
            forall|x: int| 0 <= x < 160 ==> r[x] == self.pixel_spec(vram@, oam@, x),
    {
        let sel = self.select_sprites(oam);
        let mut row: [Color; 160] = [[0u8; 3]; 160];
        let mut x: usize = 0;
        while x < SCREEN_WIDTH
            invariant
                x <= 160,
                vram@.len() == 0x2000,
                oam@.len() == 0xa0,
                sel@.len() == self.selected(oam@, 40).len(),
                forall|j: int| 0 <= j < sel@.len() ==> sel@[j] == self.selected(oam@, 40)[j],
                forall|j: int| 0 <= j < sel@.len() ==> sel@[j] < 40,
                forall|j: int| 0 <= j < x ==> row[j] == self.pixel_spec(vram@, oam@, j),
            decreases 160 - x,
        {
            let c = self.render_pixel(vram, oam, &sel, x as u8);
            row[x] = c;
            x = x + 1;
        }
        row
    }

    /// Whether the LCD is switched on (bit 7 of `LCDC`).
    pub open spec fn lcd_on(&self) -> bool {
        self.lcdc & 0x80 != 0
    }

    /// The registers, which the scanline state machine leaves alone.
    pub open spec fn same_regs(&self, o: &Ppu) -> bool {
        &&& self.lcdc == o.lcdc && self.stat == o.stat && self.scy == o.scy && self.scx == o.scx
        &&& self.lyc == o.lyc && self.bgp == o.bgp && self.obp0 == o.obp0 && self.obp1 == o.obp1
        &&& self.wy == o.wy && self.wx == o.wx && self.palette == o.palette
        &&& self.resets == o.resets && self.cgb == o.cgb && self.bg_cram == o.bg_cram
        &&& self.obj_cram == o.obj_cram && self.bcps == o.bcps && self.ocps == o.ocps
    }

    /// One clock cycle of the scanline state machine. Returns the interrupts raised.
    fn tick<V: VideoOutput>(&mut self, vram: &Vec<u8>, oam: &Vec<u8>, video: &mut V) -> (r: u8)
        requires
            old(self).wf(),
            vram@.len() == 0x2000,
            oam@.len() == 0xa0,
        ensures
            final(self).wf(),
            final(self).same_regs(old(self)),
            final(self).position() == (old(self).position() + 1) % 70224,
            final(self).rendered@ == match emitted_at(final(self).position()) {
                Some(l) => old(self).rendered@.push(l),
                None => old(self).rendered@,
            },
            V::keeps_log() ==> final(video).lines() == match emitted_at(final(self).position()) {
                Some(l) => old(video).lines().push(l),
                None => old(video).lines(),
            },
            (r == 1 || r == 3) <==> final(self).position() == 144 * 456,
            r <= 3,
            (r == 2 || r == 3) <==> {
                let n = *final(self);
                let st = old(self).stat;
                ||| n.dot == 0 && n.ly == n.lyc && st & 0x40 != 0
                ||| n.dot == 0 && n.ly == 144 && st & 0x10 != 0
                ||| n.dot == 0 && n.ly < 144 && st & 0x20 != 0
                ||| n.dot == 252 && n.ly < 144 && st & 0x08 != 0
            },
    {
        let mut vblank = false;
        let mut stat = false;
        self.dot = self.dot + 1;
        if self.dot == DOTS_PER_LINE {
            self.dot = 0;
            self.ly = if self.ly + 1 == LINES_PER_FRAME { 0 } else { self.ly + 1 };
            if self.ly == self.lyc && self.stat & 0x40 != 0 {
                stat = true;
            }
            if self.ly == VISIBLE_LINES {
                self.mode = 1;
                vblank = true;
                if self.stat & 0x10 != 0 {
                    stat = true;
                }
            } else if self.ly < VISIBLE_LINES {
                self.mode = 2;
                if self.stat & 0x20 != 0 {
                    stat = true;
                }
            }
        } else if self.ly < VISIBLE_LINES && self.dot == OAM_SCAN_END {
            self.mode = 3;
        } else if self.ly < VISIBLE_LINES && self.dot == DRAW_END {
            self.mode = 0;
            if self.stat & 0x08 != 0 {
                stat = true;
            }
            let row = self.render_scanline(vram, oam);
            video.render_line(self.ly as usize, &row);
            proof {
                self.rendered@ = self.rendered@.push(self.ly as int);
            }
        }
        proof {
            let p = self.ly as int * 456 + self.dot as int;
            vstd::arithmetic::div_mod::lemma_fundamental_div_mod_converse(p, 456, self.ly as int, self.dot as int);
            assert(p < 70224);
            vstd::arithmetic::div_mod::lemma_small_mod(p as nat, 70224);
        }
        (if vblank { 1u8 } else { 0u8 }) + (if stat { 2u8 } else { 0u8 })
    }

    /// Advances the engine by `cycles` clock cycles, handing each finished visible
    /// line to `video`. Returns the interrupts raised. With the LCD off nothing
    /// advances.
    pub fn step<V: VideoOutput>(&mut self, vram: &Vec<u8>, oam: &Vec<u8>, video: &mut V, cycles: u64)
        -> (r: u8)
        requires
            old(self).wf(),
            vram@.len() == 0x2000,
            oam@.len() == 0xa0,
        ensures
            final(self).wf(),
            final(self).same_regs(old(self)),
            !old(self).lcd_on() ==> *final(self) == *old(self) && r == 0,
            old(self).lcd_on() ==> ((r == 1 || r == 3) <==> vblank_in(old(self).position(), cycles as nat)),
            old(self).lcd_on() ==> final(self).position() == (old(self).position() + cycles) % 70224,
            old(self).lcd_on() ==> final(self).rendered@ == old(self).rendered@ + lines_in(
                old(self).position(),
                cycles as nat,
            ),
            !old(self).lcd_on() ==> *final(video) == *old(video),
            V::keeps_log() && old(self).lcd_on() ==> final(video).lines() == old(video).lines()
                + lines_in(old(self).position(), cycles as nat),
            r <= 3,
    {
        if self.lcdc & 0x80 == 0 {
            return 0;
        }
        let ghost p0 = self.position();
        let ghost r0 = self.rendered@;
        let ghost v0 = video.lines();
        let ghost s0 = *self;
        let mut ints: u8 = 0;
        let mut i: u64 = 0;
        while i < cycles
            invariant
                i <= cycles,
                self.wf(),
                self.same_regs(&s0),
                vram@.len() == 0x2000,
                oam@.len() == 0xa0,
                0 <= p0 < 70224,
                self.position() == (p0 + i) % 70224,
                self.rendered@ == r0 + lines_in(p0, i as nat),
                V::keeps_log() ==> video.lines() == v0 + lines_in(p0, i as nat),
                ints <= 3,
                (ints == 1 || ints == 3) <==> vblank_in(p0, i as nat),
            decreases cycles - i,
        {
            let r = self.tick(vram, oam, video);
            proof {
                vstd::arithmetic::div_mod::lemma_add_mod_noop(p0 + i, 1, 70224);
                vstd::arithmetic::div_mod::lemma_small_mod(1, 70224);
                vstd::arithmetic::div_mod::lemma_mod_twice(p0 + i, 70224);
                assert(r0 + lines_in(p0, (i + 1) as nat) =~= self.rendered@);
                if V::keeps_log() {
                    assert(v0 + lines_in(p0, (i + 1) as nat) =~= video.lines());
                }
                assert((ints | r) <= 3 && (((ints | r) == 1 || (ints | r) == 3) <==> ((ints == 1 || ints
                    == 3) || (r == 1 || r == 3)))) by (bit_vector)
                    requires ints <= 3, r <= 3;
            }
            ints = ints | r;
            i = i + 1;
        }
        proof {
            vstd::arithmetic::div_mod::lemma_small_mod(p0 as nat, 70224);
        }
        ints
    }
}


/// Lines emitted over `a + b` cycles are those of the first `a` cycles followed by
/// those of the next `b`.
pub proof fn lemma_lines_concat(p: int, a: nat, b: nat)
    ensures
        lines_in(p, a + b) == lines_in(p, a) + lines_in((p + a) % 70224, b),
    decreases b,
{
    if b == 0 {
        assert(lines_in(p, a) + lines_in((p + a) % 70224, 0) =~= lines_in(p, a));
    } else {
        lemma_lines_concat(p, a, (b - 1) as nat);
        let q = p + a;
        assert((q + b) % 70224 == (q % 70224 + b) % 70224) by {
            vstd::arithmetic::div_mod::lemma_add_mod_noop(q, b as int, 70224);
            vstd::arithmetic::div_mod::lemma_add_mod_noop(q % 70224, b as int, 70224);
            vstd::arithmetic::div_mod::lemma_mod_twice(q, 70224);
        }
        assert(lines_in(p, a + b) =~= lines_in(p, a) + lines_in((p + a) % 70224, b));
    }
}

/// Number of visible lines finished by frame position `x` (`x <= 70224`).
pub open spec fn finished_by(x: int) -> int {
    let q = x / 456;
    let n = q + if x % 456 >= 252 { 1int } else { 0 };
    if n > 144 { 144 } else { n }
}

proof fn lemma_lines_prefix(p: int, k: nat)
    requires
        0 <= p < 252,
        p + k <= 70224,
    ensures
        lines_in(p, k) == Seq::new(finished_by(p + k) as nat, |i: int| i),
    decreases k,
{
    if k == 0 {
        vstd::arithmetic::div_mod::lemma_fundamental_div_mod_converse(p, 456, 0, p);
        assert(lines_in(p, k) =~= Seq::new(finished_by(p + k) as nat, |i: int| i));
    } else {
        lemma_lines_prefix(p, (k - 1) as nat);
        let x = p + k;
        let q = x / 456;
        let r = x % 456;
        vstd::arithmetic::div_mod::lemma_fundamental_div_mod(x, 456);
        if r > 0 {
            vstd::arithmetic::div_mod::lemma_fundamental_div_mod_converse(x - 1, 456, q, r - 1);
        } else {
            vstd::arithmetic::div_mod::lemma_fundamental_div_mod_converse(x - 1, 456, q - 1, 455);
        }
        if x == 70224 {
            vstd::arithmetic::div_mod::lemma_mod_self_0(70224);
            assert(emitted_at(0) is None);
            assert(lines_in(p, k) =~= Seq::new(finished_by(p + k) as nat, |i: int| i));
        } else {
            vstd::arithmetic::div_mod::lemma_small_mod(x as nat, 70224);
            assert(lines_in(p, k) =~= Seq::new(finished_by(p + k) as nat, |i: int| i));
        }
    }
}

proof fn lemma_lines_tail(p: int, k: nat)
    requires
        0 <= p < 252,
        70224 <= p + k < 70224 + 252,
    ensures
        lines_in(p, k) == lines_in(p, (70224 - p) as nat),
    decreases k,
{
    if p + k > 70224 {
        lemma_lines_tail(p, (k - 1) as nat);
        vstd::arithmetic::div_mod::lemma_fundamental_div_mod_converse(p + k, 70224, 1, p + k - 70224);
        vstd::arithmetic::div_mod::lemma_fundamental_div_mod_converse(p + k - 70224, 456, 0, p + k - 70224);
    }
}

/// A refresh's worth of cycles that starts within the first 252 cycles of line 0
/// (where every frame starts, given a carry below 252) and ends within the first
/// 252 cycles of the next frame emits each visible line exactly once, in order
/// from 0 to 143.
pub proof fn lemma_frame_emits_every_line_once(p: int, n: nat)
    requires
        0 <= p < 252,
        70224 <= p + n < 70224 + 252,
    ensures
        lines_in(p, n) == Seq::new(144, |i: int| i),
{
    lemma_lines_tail(p, n);
    lemma_lines_prefix(p, (70224 - p) as nat);
    vstd::arithmetic::div_mod::lemma_fundamental_div_mod_converse(70224, 456, 154, 0);
}

} // verus!
