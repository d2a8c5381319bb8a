//! Memory dispatcher: routes the 16-bit address space and drives the subsystems.
use vstd::prelude::*;
use crate::apu::Audio;
use crate::cartridge::{bank_select, checksum_of, header_sum, in_range, Cartridge, Rom};
use crate::interrupts::{Interrupts, JOYPAD, TIMER};
use crate::joypad::{button_bit, is_direction, Button, Joypad};
use crate::ppu::{Palette, Ppu, VideoOutput};
use crate::timer::Timer;
use crate::cpu::{services, Cpu};
use crate::interrupts::priority_of;
use crate::ppu::{lemma_lines_concat, lines_in, vblank_in};
use crate::timer::tick_n;
use crate::{Mode, FRAME_CYCLES};

verus! {

/// Owner of every memory region and I/O register of the machine.
pub struct Mmu<C: Cartridge, V: VideoOutput, D: Audio> {
    pub cartridge: C,
    pub video: V,
    pub audio: D,
    pub ppu: Ppu,
    pub timer: Timer,
    pub joypad: Joypad,
    pub ints: Interrupts,
    /// Video memory, 0x8000 ..= 0x9fff.
    pub vram: Vec<u8>,
    /// Working memory: eight 4 KiB banks; bank 0 at 0xc000, the selected one at 0xd000.
    pub wram: Vec<u8>,
    /// Working-memory bank at 0xd000 (1 to 7; always 1 in monochrome mode).
    pub wram_bank: u8,
    /// Sprite attribute table, 0xfe00 ..= 0xfe9f.
    pub oam: Vec<u8>,
    /// High RAM, 0xff80 ..= 0xfffe.
    pub hram: Vec<u8>,
    /// Plain I/O registers, 0xff00 ..= 0xff7f (those without an owner of their own).
    pub io: Vec<u8>,
    pub mode: Mode,
    /// Clock cycles by which the subsystems have been advanced.
    pub elapsed: Ghost<nat>,
}

/// Index into working memory of an address in 0xc000 ..= 0xfdff (echo included).
pub open spec fn wram_index(addr: u16, bank: u8) -> int {
    let a = if addr >= 0xe000 { addr as int - 0x2000 } else { addr as int };
    if a < 0xd000 {
        a - 0xc000
    } else {
        bank as int * 0x1000 + (a - 0xd000)
    }
}

/// What the processor's memory accesses leave of the picture engine: no line is
/// emitted, and unless the LCD was switched off meanwhile, the engine stands at
/// the same point of the frame and an LCD that was on is still on.
pub open spec fn video_steady<C: Cartridge, V: VideoOutput, D: Audio>(a: Mmu<C, V, D>, b: Mmu<C, V, D>) -> bool {
    &&& b.ppu.rendered == a.ppu.rendered
    &&& b.video == a.video
    &&& b.elapsed == a.elapsed
    &&& b.ppu.resets@ >= a.ppu.resets@
    &&& b.ppu.resets@ == a.ppu.resets@ ==> b.ppu.position() == a.ppu.position() && (a.ppu.lcd_on()
        ==> b.ppu.lcd_on())
}

/// Whether a write to `addr` may change what a read of `b` yields: a write to the
/// cartridge windows may switch banks; a write to working memory reaches its echo;
/// a write to an I/O register may move `STAT`, `LY` and the palette registers,
/// starts a sprite-table copy (0xff46) or switches the working-memory bank (0xff70).
pub open spec fn may_change(addr: u16, b: u16) -> bool {
    if addr < 0x8000 || in_range(addr, 0xa000, 0xbfff) {
        b < 0x8000 || in_range(b, 0xa000, 0xbfff)
    } else if in_range(addr, 0xc000, 0xfdff) {
        b == addr || (in_range(b, 0xc000, 0xfdff) && (b as int == addr as int + 0x2000 || b as int
            == addr as int - 0x2000))
    } else if addr < 0xff00 || in_range(addr, 0xff80, 0xfffe) {
        b == addr
    } else {
        ||| b == addr
        ||| b == 0xff41 && (addr == 0xff40 || addr == 0xff45)
        ||| b == 0xff44 && addr == 0xff40
        ||| in_range(b, 0xff68, 0xff6b) && in_range(addr, 0xff68, 0xff6b)
        ||| addr == 0xff46 && in_range(b, 0xfe00, 0xfe9f)
        ||| addr == 0xff70 && (in_range(b, 0xd000, 0xdfff) || in_range(b, 0xf000, 0xfdff))
    }
}

/// What a read of `a` yields on a machine just built around cartridge `cart`: the
/// cartridge windows show the cartridge, memories are cleared, unmapped space
/// and the joypad read 0xff, the I/O registers hold the post-boot table, `STAT`
/// shows mode 2 with the coincidence flag, and everything else reads 0.
pub open spec fn boot_read<C: Cartridge>(cart: C, a: u16) -> u8 {
    if a < 0x8000 || in_range(a, 0xa000, 0xbfff) {
        cart.read_spec(a)
    } else if in_range(a, 0xfea0, 0xfeff) || a == 0xff00 {
        0xff
    } else if a == 0xff10 {
        0x80
    } else if a == 0xff11 || a == 0xff14 || a == 0xff19 || a == 0xff1e || a == 0xff23 {
        0xbf
    } else if a == 0xff12 || a == 0xff25 {
        0xf3
    } else if a == 0xff16 {
        0x3f
    } else if a == 0xff1a {
        0x7f
    } else if a == 0xff1b || a == 0xff20 || a == 0xff48 || a == 0xff49 {
        0xff
    } else if a == 0xff1c {
        0x9f
    } else if a == 0xff24 {
        0x77
    } else if a == 0xff26 {
        0xf1
    } else if a == 0xff40 {
        0x91
    } else if a == 0xff41 {
        0x86
    } else if a == 0xff47 {
        0xfc
    } else if a == 0xff50 {
        0x01
    } else {
        0
    }
}

/// Memory that reads back the byte last written: video memory, working memory
/// and its echo, the sprite attribute table and high RAM.
pub open spec fn ram_address(addr: u16) -> bool {
    ||| in_range(addr, 0x8000, 0x9fff)
    ||| in_range(addr, 0xc000, 0xfdff)
    ||| in_range(addr, 0xfe00, 0xfe9f)
    ||| in_range(addr, 0xff80, 0xfffe)
}

/// Registers that read back exactly the value last written.
pub open spec fn plain_register(addr: u16) -> bool {
    ||| addr == 0xff05 || addr == 0xff06
    ||| in_range(addr, 0xff10, 0xff3f)
    ||| addr == 0xff40 || addr == 0xff42 || addr == 0xff43 || addr == 0xff45
    ||| in_range(addr, 0xff47, 0xff4b)
    ||| addr == 0xff50
    ||| in_range(addr, 0xff80, 0xffff)
}

impl<C: Cartridge, V: VideoOutput, D: Audio> Mmu<C, V, D> {
    pub open spec fn wf(&self) -> bool {
        &&& self.cartridge.wf()
        &&& self.ppu.wf()
        &&& self.vram@.len() == 0x2000
        &&& self.wram@.len() == 0x8000
        &&& 1 <= self.wram_bank <= 7
        &&& self.oam@.len() == 0xa0
        &&& self.hram@.len() == 0x7f
        &&& self.io@.len() == 0x80
    }

    /// Memories cleared, registers at their reset values, LCD off.
    pub open spec fn fresh(&self) -> bool {
        &&& forall|i: int| 0 <= i < 0x2000 ==> #[trigger] self.vram@[i] == 0
        &&& forall|i: int| 0 <= i < 0x8000 ==> #[trigger] self.wram@[i] == 0
        &&& forall|i: int| 0 <= i < 0xa0 ==> #[trigger] self.oam@[i] == 0
        &&& forall|i: int| 0 <= i < 0x7f ==> #[trigger] self.hram@[i] == 0
        &&& forall|i: int| 0 <= i < 0x80 ==> #[trigger] self.io@[i] == 0
        &&& self.ints.enable == 0 && self.ints.flags == 0
        &&& self.timer.div == 0 && self.timer.tima == 0 && self.timer.tma == 0 && self.timer.tac == 0
        &&& self.joypad.directions == 0 && self.joypad.actions == 0 && self.joypad.select == 0x30
        &&& self.wram_bank == 1
        &&& self.ppu.lcdc == 0 && self.ppu.ly == 0 && self.ppu.dot == 0 && self.ppu.mode == 2
        &&& self.ppu.stat == 0 && self.ppu.lyc == 0 && self.ppu.bcps == 0 && self.ppu.ocps == 0
        &&& self.ppu.scy == 0 && self.ppu.scx == 0 && self.ppu.bgp == 0 && self.ppu.obp0 == 0
        &&& self.ppu.obp1 == 0 && self.ppu.wy == 0 && self.ppu.wx == 0
        &&& forall|j: int| 0 <= j < 64 ==> self.ppu.bg_cram[j] == 0 && self.ppu.obj_cram[j] == 0
    }

    /// The byte that a read of `addr` yields.
    pub open spec fn read_spec(&self, addr: u16) -> u8 {
        if addr < 0x8000 || in_range(addr, 0xa000, 0xbfff) {
            self.cartridge.read_spec(addr)
        } else if addr < 0xa000 {
            self.vram@[addr - 0x8000]
        } else if addr < 0xfe00 {
            self.wram@[wram_index(addr, self.wram_bank)]
        } else if addr < 0xfea0 {
            self.oam@[addr - 0xfe00]
        } else if addr < 0xff00 {
            0xff
        } else if addr >= 0xff80 && addr < 0xffff {
            self.hram@[addr - 0xff80]
        } else if addr == 0xffff {
            self.ints.enable
        } else {
            self.io_read_spec(addr)
        }
    }

    pub open spec fn io_read_spec(&self, addr: u16) -> u8 {
        if addr == 0xff00 {
            self.joypad.read_spec()
        } else if addr == 0xff04 {
            (self.timer.div >> 8) as u8
        } else if addr == 0xff05 {
            self.timer.tima
        } else if addr == 0xff06 {
            self.timer.tma
        } else if addr == 0xff07 {
            self.timer.tac
        } else if addr == 0xff0f {
            self.ints.flags
        } else if addr == 0xff40 {
            self.ppu.lcdc
        } else if addr == 0xff41 {
            self.ppu.stat_spec()
        } else if addr == 0xff42 {
            self.ppu.scy
        } else if addr == 0xff43 {
            self.ppu.scx
        } else if addr == 0xff44 {
            self.ppu.ly
        } else if addr == 0xff45 {
            self.ppu.lyc
        } else if addr == 0xff47 {
            self.ppu.bgp
        } else if addr == 0xff48 {
            self.ppu.obp0
        } else if addr == 0xff49 {
            self.ppu.obp1
        } else if addr == 0xff4a {
            self.ppu.wy
        } else if addr == 0xff4b {
            self.ppu.wx
        } else if self.ppu.cgb && addr == 0xff68 {
            self.ppu.bcps
        } else if self.ppu.cgb && addr == 0xff69 {
            self.ppu.bg_cram[(self.ppu.bcps & 0x3f) as int]
        } else if self.ppu.cgb && addr == 0xff6a {
            self.ppu.ocps
        } else if self.ppu.cgb && addr == 0xff6b {
            self.ppu.obj_cram[(self.ppu.ocps & 0x3f) as int]
        } else {
            self.io@[addr - 0xff00]
        }
    }

    /// A machine with empty memories, the LCD off and the given cartridge and display.
    pub fn with_cartridge_and_video(cartridge: C, mode: Mode, video: V) -> (r: Mmu<C, V, D>)
        requires
            cartridge.wf(),
        ensures
            r.wf(),
            r.cartridge == cartridge,
            r.video == video,
            r.mode == mode,
            r.ppu.rendered@ == Seq::<int>::empty(),
            r.ppu.lcdc == 0,
            r.ppu.position() == 0,
            r.ppu.cgb == (mode == Mode::CGB),
            r.ppu.palette == crate::ppu::grayscale_spec(),
            r.fresh(),
    {
        Mmu {
            cartridge,
            video,
            audio: D::create(),
            ppu: Ppu::new(crate::ppu::grayscale(), mode == Mode::CGB),
            timer: Timer::new(),
            joypad: Joypad::new(),
            ints: Interrupts::new(),
            vram: vec![0u8; 0x2000],
            wram: vec![0u8; 0x8000],
            wram_bank: 1,
            oam: vec![0u8; 0xa0],
            hram: vec![0u8; 0x7f],
            io: vec![0u8; 0x80],
            mode,
            elapsed: Ghost(0),
        }
    }

    fn io_read(&self, addr: u16) -> (r: u8)
        requires
            self.wf(),
            0xff00 <= addr < 0xff80,
        ensures
            r == self.io_read_spec(addr),
    {
        if addr == 0xff00 {
            self.joypad.read()
        } else if addr == 0xff04 {
            self.timer.div_reg()
        } else if addr == 0xff05 {
            self.timer.tima
        } else if addr == 0xff06 {
            self.timer.tma
        } else if addr == 0xff07 {
            self.timer.tac
        } else if addr == 0xff0f {
            self.ints.flags
        } else if addr == 0xff40 {
            self.ppu.lcdc
        } else if addr == 0xff41 {
            self.ppu.read_stat()
        } else if addr == 0xff42 {
            self.ppu.scy
        } else if addr == 0xff43 {
            self.ppu.scx
        } else if addr == 0xff44 {
            self.ppu.ly
        } else if addr == 0xff45 {
            self.ppu.lyc
        } else if addr == 0xff47 {
            self.ppu.bgp
        } else if addr == 0xff48 {
            self.ppu.obp0
        } else if addr == 0xff49 {
            self.ppu.obp1
        } else if addr == 0xff4a {
            self.ppu.wy
        } else if addr == 0xff4b {
            self.ppu.wx
        } else if self.ppu.cgb && addr == 0xff68 {
            self.ppu.bcps
        } else if self.ppu.cgb && addr == 0xff69 {
            let c = self.ppu.bcps;
            assert(c & 0x3f < 64) by (bit_vector);
            self.ppu.bg_cram[(self.ppu.bcps & 0x3f) as usize]
        } else if self.ppu.cgb && addr == 0xff6a {
            self.ppu.ocps
        } else if self.ppu.cgb && addr == 0xff6b {
            let c = self.ppu.ocps;
            assert(c & 0x3f < 64) by (bit_vector);
            self.ppu.obj_cram[(self.ppu.ocps & 0x3f) as usize]
        } else {
            self.io[(addr - 0xff00) as usize]
        }
    }

    fn wram_offset(&self, addr: u16) -> (r: usize)
        requires
            self.wf(),
            0xc000 <= addr < 0xfe00,
        ensures
            r == wram_index(addr, self.wram_bank),
            r < 0x8000,
    {
        let a = if addr >= 0xe000 { addr - 0x2000 } else { addr };
        if a < 0xd000 {
            (a - 0xc000) as usize
        } else {
            self.wram_bank as usize * 0x1000 + (a - 0xd000) as usize
        }
    }

    /// Reads the byte at `addr`.
    pub fn read(&self, addr: u16) -> (r: u8)
        requires
            self.wf(),
        ensures
            r == self.read_spec(addr),
    {
        if addr < 0x8000 || (0xa000 <= addr && addr <= 0xbfff) {
            self.cartridge.read(addr)
        } else if addr < 0xa000 {
            self.vram[(addr - 0x8000) as usize]
        } else if addr < 0xfe00 {
            self.wram[self.wram_offset(addr)]
        } else if addr < 0xfea0 {
            self.oam[(addr - 0xfe00) as usize]
        } else if addr < 0xff00 {
            0xff
        } else if addr >= 0xff80 && addr < 0xffff {
            self.hram[(addr - 0xff80) as usize]
        } else if addr == 0xffff {
            self.ints.enable
        } else {
            self.io_read(addr)
        }
    }

    /// What a write leaves unchanged: every address whose read `may_change` does
    /// not admit as affected.
    pub open spec fn write_frame(&self, new: &Self, addr: u16) -> bool {
        &&& new.mode == self.mode
        &&& forall|b: u16|
            #![trigger new.read_spec(b)]
            !may_change(addr, b) ==> new.read_spec(b) == self.read_spec(b)
    }

    #[verifier::rlimit(60)]
    fn io_write(&mut self, addr: u16, v: u8)
        requires
            old(self).wf(),
            0xff00 <= addr < 0xff80,
        ensures
            final(self).wf(),
            old(self).write_frame(final(self), addr),
            plain_register(addr) ==> final(self).read_spec(addr) == v,
            addr == 0xff07 ==> final(self).read_spec(addr) == v & 7,
            final(self).cartridge == old(self).cartridge,
            final(self).video == old(self).video,
            final(self).audio == old(self).audio,
            video_steady(*old(self), *final(self)),
            !(addr == 0xff40 && v & 0x80 == 0) ==> final(self).ppu.resets == old(self).ppu.resets,
            !(addr == 0xff40 && v & 0x80 == 0) && addr != 0xff41 ==> final(self).ppu.ly == old(
                self,
            ).ppu.ly && final(self).ppu.mode == old(self).ppu.mode && final(self).ppu.stat == old(
                self,
            ).ppu.stat,
            addr != 0xff45 ==> final(self).ppu.lyc == old(self).ppu.lyc,
            addr == 0xff45 ==> final(self).ppu.lyc == v,
            final(self).ppu.palette == old(self).ppu.palette,
    {
        if addr == 0xff00 {
            self.joypad.write(v);
        } else if addr == 0xff04 {
            self.timer.div = 0;
        } else if addr == 0xff05 {
            self.timer.tima = v;
        } else if addr == 0xff06 {
            self.timer.tma = v;
        } else if addr == 0xff07 {
            self.timer.tac = v & 7;
        } else if addr == 0xff0f {
            self.ints.flags = v & 0x1f;
        } else if addr == 0xff40 {
            self.ppu.lcdc = v;
            if v & 0x80 == 0 {
                proof {
                    self.ppu.resets@ = self.ppu.resets@ + 1;
                }
                self.ppu.ly = 0;
                self.ppu.dot = 0;
                self.ppu.mode = 2;
            }
        } else if addr == 0xff41 {
            self.ppu.stat = v & 0x78;
        } else if addr == 0xff42 {
            self.ppu.scy = v;
        } else if addr == 0xff43 {
            self.ppu.scx = v;
        } else if addr == 0xff44 {
        } else if addr == 0xff45 {
            self.ppu.lyc = v;
        } else if addr == 0xff46 {
            self.io.set(0x46, v);
        } else if addr == 0xff47 {
            self.ppu.bgp = v;
        } else if addr == 0xff48 {
            self.ppu.obp0 = v;
        } else if addr == 0xff49 {
            self.ppu.obp1 = v;
        } else if addr == 0xff4a {
            self.ppu.wy = v;
        } else if addr == 0xff4b {
            self.ppu.wx = v;
        } else if self.ppu.cgb && addr == 0xff68 {
            self.ppu.bcps = v & 0xbf;
        } else if self.ppu.cgb && addr == 0xff69 {
            let i = self.ppu.bcps & 0x3f;
            let c = self.ppu.bcps;
            assert(i < 64) by (bit_vector)
                requires i == c & 0x3f;
            self.ppu.bg_cram[i as usize] = v;
            if self.ppu.bcps & 0x80 != 0 {
                self.ppu.bcps = 0x80 | ((i + 1) & 0x3f);
            }
        } else if self.ppu.cgb && addr == 0xff6a {
            self.ppu.ocps = v & 0xbf;
        } else if self.ppu.cgb && addr == 0xff6b {
            let i = self.ppu.ocps & 0x3f;
            let c = self.ppu.ocps;
            assert(i < 64) by (bit_vector)
                requires i == c & 0x3f;
            self.ppu.obj_cram[i as usize] = v;
            if self.ppu.ocps & 0x80 != 0 {
                self.ppu.ocps = 0x80 | ((i + 1) & 0x3f);
            }
        } else {
            if addr == 0xff70 && self.mode == Mode::CGB {
                self.wram_bank = if v & 7 == 0 { 1 } else { v & 7 };
                assert(v & 7 <= 7) by (bit_vector);
            }
            self.io.set((addr - 0xff00) as usize, v);
        }
        proof {
            assert forall|b: u16| !may_change(addr, b) implies #[trigger] self.read_spec(b) == old(
                self,
            ).read_spec(b) by {
                if 0xff00 <= b < 0xff80 {
                    assert(self.io_read_spec(b) == old(self).io_read_spec(b));
                }
            }
        }
    }

    /// Copies 160 bytes from `page * 0x100` into the sprite attribute table.
    fn dma(&mut self, page: u8)
        requires
            old(self).wf(),
        ensures
            final(self).wf(),
            final(self).oam@.len() == 0xa0,
            *final(self) == (Mmu { oam: final(self).oam, ..*old(self) }),
    {
        let base: u16 = page as u16 * 0x100;
        let mut i: u16 = 0;
        let ghost s0 = *self;
        while i < 0xa0
            invariant
                i <= 0xa0,
                self.wf(),
                base as int == page as int * 0x100,
                *self == (Mmu { oam: self.oam, ..s0 }),
            decreases 0xa0 - i,
        {
            let b = if base as u32 + (i as u32) < 0x10000 { self.read(base + i) } else { 0xff };
            self.oam.set(i as usize, b);
            i = i + 1;
        }
    }

    /// Writes `v` to `addr`. Writes to read-only regions are ignored.
    #[verifier::rlimit(60)]
    pub fn write(&mut self, addr: u16, v: u8)
        requires
            old(self).wf(),
        ensures
            final(self).wf(),
            old(self).write_frame(final(self), addr),
            plain_register(addr) ==> final(self).read_spec(addr) == v,
            addr == 0xff07 ==> final(self).read_spec(addr) == v & 7,
            addr >= 0x8000 && !in_range(addr, 0xa000, 0xbfff) ==> final(self).cartridge
                == old(self).cartridge,
            addr < 0x8000 || in_range(addr, 0xa000, 0xbfff) ==> {
                &&& old(self).cartridge.write_spec(&final(self).cartridge, addr, v)
                &&& *final(self) == (Mmu { cartridge: final(self).cartridge, ..*old(self) })
            },
            ram_address(addr) ==> final(self).read_spec(addr) == v,
            final(self).video == old(self).video,
            final(self).mode == old(self).mode,
            video_steady(*old(self), *final(self)),
            !(addr == 0xff40 && v & 0x80 == 0) ==> final(self).ppu.resets == old(self).ppu.resets,
            !(addr == 0xff40 && v & 0x80 == 0) && addr != 0xff41 ==> final(self).ppu.ly == old(
                self,
            ).ppu.ly && final(self).ppu.mode == old(self).ppu.mode && final(self).ppu.stat == old(
                self,
            ).ppu.stat,
            addr != 0xff45 ==> final(self).ppu.lyc == old(self).ppu.lyc,
            addr == 0xff45 ==> final(self).ppu.lyc == v,
            final(self).ppu.palette == old(self).ppu.palette,
    {
        if addr < 0x8000 || (0xa000 <= addr && addr <= 0xbfff) {
            self.cartridge.write(addr, v);
        } else if addr < 0xa000 {
            self.vram.set((addr - 0x8000) as usize, v);
        } else if addr < 0xfe00 {
            let i = self.wram_offset(addr);
            self.wram.set(i, v);
        } else if addr < 0xfea0 {
            self.oam.set((addr - 0xfe00) as usize, v);
        } else if addr < 0xff00 {
        } else if addr >= 0xff80 && addr < 0xffff {
            self.hram.set((addr - 0xff80) as usize, v);
        } else if addr == 0xffff {
            self.ints.enable = v;
        } else {
            self.io_write(addr, v);
            if addr == 0xff46 {
                let ghost mid = *self;
                self.dma(v);
                assert forall|b: u16| !in_range(b, 0xfe00, 0xfe9f) implies #[trigger] self.read_spec(b)
                    == mid.read_spec(b) by {
                    if 0xff00 <= b < 0xff80 {
                        assert(self.io_read_spec(b) == mid.io_read_spec(b));
                    }
                }
            }
        }
        proof {
            assert forall|b: u16| !may_change(addr, b) implies #[trigger] self.read_spec(b) == old(
                self,
            ).read_spec(b) by {
                if addr >= 0x8000 && !in_range(addr, 0xa000, 0xbfff) && addr < 0xff00 && 0xff00 <= b
                    < 0xff80 {
                    assert(self.io_read_spec(b) == old(self).io_read_spec(b));
                }
                if in_range(addr, 0xff80, 0xffff) && 0xff00 <= b < 0xff80 {
                    assert(self.io_read_spec(b) == old(self).io_read_spec(b));
                }
                if (addr < 0x8000 || in_range(addr, 0xa000, 0xbfff)) && 0xff00 <= b < 0xff80 {
                    assert(self.io_read_spec(b) == old(self).io_read_spec(b));
                }
            }
        }
    }

    /// Advances the picture engine, the timer and the audio sink by `cycles`,
    /// records the interrupts they raise as pending, and returns those interrupts.
    pub fn tick(&mut self, cycles: u64) -> (r: u8)
        requires
            old(self).wf(),
        ensures
            final(self).wf(),
            final(self).elapsed@ == old(self).elapsed@ + cycles,
            final(self).ints.flags == old(self).ints.flags | r,
            final(self).ints.enable == old(self).ints.enable,
            r & 0xf8 == 0,
            final(self).timer == tick_n(old(self).timer, cycles as nat).0,
            (r & TIMER != 0) <==> tick_n(old(self).timer, cycles as nat).1,
            !old(self).ppu.lcd_on() ==> r & 0x03 == 0,
            old(self).ppu.lcd_on() ==> ((r & 0x01 != 0) <==> vblank_in(old(self).ppu.position(), cycles as nat)),
            old(self).ppu.lcd_on() ==> final(self).ppu.position() == (old(self).ppu.position()
                + cycles) % 70224,
            old(self).ppu.lcd_on() ==> final(self).ppu.rendered@ == old(self).ppu.rendered@
                + lines_in(old(self).ppu.position(), cycles as nat),
            V::keeps_log() && old(self).ppu.lcd_on() ==> final(self).video.lines() == old(
                self,
            ).video.lines() + lines_in(old(self).ppu.position(), cycles as nat),
            final(self).ppu.resets == old(self).ppu.resets,
            final(self).ppu.lcdc == old(self).ppu.lcdc,
            final(self).cartridge == old(self).cartridge,
    {
        let i = self.ppu.step(&self.vram, &self.oam, &mut self.video, cycles);
        let t = self.timer.step(cycles);
        let r: u8 = if t { i | TIMER } else { i };
        proof {
            assert(i <= 3 ==> (i | 4) & 0xf8 == 0 && (i | 4) & 4 != 0 && i & 4 == 0 && i & 0xf8 == 0
                && ((i | 4) & 1 != 0 <==> (i == 1 || i == 3)) && (i & 1 != 0 <==> (i == 1 || i == 3))
                && (i == 0 ==> i & 3 == 0) && ((i | 4) & 3 == i & 3)) by (bit_vector);
            self.elapsed@ = self.elapsed@ + cycles as nat;
        }
        self.ints.request(r);
        self.audio.step(cycles);
        r
    }

    /// Runs the processor for one display refresh. `carry` is the overshoot of
    /// the previous frame; the overshoot of this one is returned, so that the
    /// cycles run over successive frames add up to whole refreshes.
    pub fn emulate_frame(&mut self, cpu: &mut Cpu, carry: u64) -> (r: u64)
        requires
            old(self).wf(),
            carry < FRAME_CYCLES,
        ensures
            final(self).wf(),
            r < FRAME_CYCLES,
            r < 24,
            final(self).ppu.resets@ >= old(self).ppu.resets@,
            final(cpu).cycles@ == old(cpu).cycles@ + (r + 70224 - carry),
            final(self).elapsed@ == old(self).elapsed@ + (r + 70224 - carry),
            final(cpu).steps@ >= old(cpu).steps@ + 1,
            r < final(cpu).last@,
            4 * (final(cpu).steps@ - old(cpu).steps@ - 1) < 70224 - carry,
            final(cpu).serviced@.len() >= old(cpu).serviced@.len(),
            forall|j: int| 0 <= j < old(cpu).serviced@.len() ==> #[trigger] final(cpu).serviced@[j]
                == old(cpu).serviced@[j],
            final(cpu).trace@.len() == old(cpu).trace@.len() + (final(cpu).steps@ - old(cpu).steps@),
            final(cpu).trace@[old(cpu).trace@.len() as int] == if services(*old(cpu), *old(self)) {
                Some(priority_of(old(self).ints.active_spec())->Some_0)
            } else {
                None
            },
            services(*old(cpu), *old(self)) ==> final(cpu).serviced@.len() > old(cpu).serviced@.len()
                && final(cpu).serviced@[old(cpu).serviced@.len() as int] == priority_of(
                old(self).ints.active_spec(),
            )->Some_0,
            old(self).ppu.lcd_on() && final(self).ppu.resets == old(self).ppu.resets ==> {
                let elapsed = (r + 70224 - carry) as nat;
                &&& final(self).ppu.rendered@ == old(self).ppu.rendered@ + lines_in(
                    old(self).ppu.position(),
                    elapsed,
                )
                &&& final(self).ppu.position() == (old(self).ppu.position() + elapsed) % 70224
                &&& final(self).ppu.lcd_on()
                &&& V::keeps_log() ==> final(self).video.lines() == old(self).video.lines() + lines_in(
                    old(self).ppu.position(),
                    elapsed,
                )
            },
    {
        let ghost p0 = self.ppu.position();
        let ghost r0 = self.ppu.rendered@;
        let ghost vl0 = self.video.lines();
        let ghost n0 = self.ppu.resets@;
        let ghost on0 = self.ppu.lcd_on();
        let ghost cc0 = cpu.cycles@;
        let ghost e0 = self.elapsed@;
        let ghost st0 = cpu.steps@;
        let ghost c0 = *cpu;
        let ghost ints0 = self.ints;
        let ghost sv0 = cpu.serviced@;
        let ghost tr0 = cpu.trace@;
        let ghost first = !c0.locked && (!c0.stopped || ints0.flags & JOYPAD != 0) && c0.ime
            && ints0.active_spec() != 0;
        let ghost pr0 = priority_of(self.ints.active_spec())->Some_0;
        let ghost fe: Option<u8> = if first { Some(pr0) } else { None };
        let mut total: u64 = carry;
        proof {
            vstd::arithmetic::div_mod::lemma_small_mod(p0 as nat, 70224);
        }
        while total < FRAME_CYCLES
            invariant
                self.wf(),
                carry <= total < FRAME_CYCLES + 24,
                0 <= p0 < 70224,
                self.ppu.resets@ >= n0,
                cpu.cycles@ == cc0 + (total - carry),
                self.elapsed@ == e0 + (total - carry),
                cpu.steps@ >= st0,
                cpu.steps@ > st0 ==> total < FRAME_CYCLES + cpu.last@,
                cpu.steps@ == st0 ==> total == carry && *cpu == c0 && self.ints == ints0,
                first == (!c0.locked && (!c0.stopped || ints0.flags & JOYPAD != 0) && c0.ime
                    && ints0.active_spec() != 0),
                pr0 == priority_of(ints0.active_spec())->Some_0,
                sv0 == c0.serviced@,
                tr0 == c0.trace@,
                fe == (if first { Some(pr0) } else { None::<u8> }),
                cpu.trace@.len() == tr0.len() + (cpu.steps@ - st0),
                cpu.steps@ > st0 ==> cpu.trace@[tr0.len() as int] == fe,
                st0 == c0.steps@,
                cpu.serviced@.len() >= sv0.len(),
                forall|j: int| 0 <= j < sv0.len() ==> #[trigger] cpu.serviced@[j] == sv0[j],
                first && cpu.steps@ > st0 ==> cpu.serviced@.len() > sv0.len() && cpu.serviced@[sv0.len()
                    as int] == pr0,
                4 * (cpu.steps@ - st0) <= total - carry,
                cpu.steps@ > st0 ==> 4 * (cpu.steps@ - st0 - 1) < 70224 - carry,
                on0 && self.ppu.resets@ == n0 ==> {
                    &&& self.ppu.lcd_on()
                    &&& self.ppu.rendered@ == r0 + lines_in(p0, (total - carry) as nat)
                    &&& V::keeps_log() ==> self.video.lines() == vl0 + lines_in(p0, (total - carry) as nat)
                    &&& self.ppu.position() == (p0 + (total - carry)) % 70224
                },
            decreases FRAME_CYCLES + 24 - total,
        {
            let ghost before = *self;
            let ghost cb = *cpu;
            let c = cpu.step(self);
            proof {
                if cb.steps@ == st0 {
                    assert(cb == c0);
                    assert(before.ints == ints0);
                    assert(services(cb, before) == first);
                    if first {
                        assert(cpu.serviced@[sv0.len() as int] == pr0);
                    }
                    assert(cpu.trace@[tr0.len() as int] == fe);
                } else if first {
                    assert(cb.serviced@.len() > sv0.len());
                    if services(cb, before) {
                        let pi = priority_of(before.ints.active_spec())->Some_0;
                        assert(cpu.serviced@ == cb.serviced@.push(pi));
                        assert(cb.serviced@.push(pi)[sv0.len() as int] == cb.serviced@[sv0.len() as int]);
                    }
                    assert(cpu.serviced@[sv0.len() as int] == cb.serviced@[sv0.len() as int]);
                }
                if cb.steps@ > st0 {
                    assert(cpu.trace@[tr0.len() as int] == cb.trace@[tr0.len() as int]);
                }
            }
            self.tick(c);
            proof {
                if on0 && self.ppu.resets@ == n0 {
                    let e = (total - carry) as nat;
                    lemma_lines_concat(p0, e, c as nat);
                    assert((p0 + e + c) % 70224 == ((p0 + e) % 70224 + c) % 70224) by {
                        vstd::arithmetic::div_mod::lemma_add_mod_noop(p0 + e, c as int, 70224);
                        vstd::arithmetic::div_mod::lemma_add_mod_noop((p0 + e) % 70224, c as int, 70224);
                        vstd::arithmetic::div_mod::lemma_mod_twice(p0 + e, 70224);
                    }
                    assert(self.ppu.rendered@ =~= r0 + lines_in(p0, (e + c) as nat));
                    if V::keeps_log() {
                        assert(self.video.lines() =~= vl0 + lines_in(p0, (e + c) as nat));
                    }
                }
            }
            total = total + c;
        }
        total - FRAME_CYCLES
    }

    /// Presses or releases a button. A new press raises the joypad interrupt,
    /// which also resumes a stopped processor.
    pub fn set_button(&mut self, b: Button, pressed: bool) -> (r: bool)
        requires
            old(self).wf(),
        ensures
            final(self).wf(),
            r ==> final(self).ints.flags == old(self).ints.flags | JOYPAD,
            !r ==> final(self).ints == old(self).ints,
            final(self).ints.enable == old(self).ints.enable,
            r == (pressed && (if is_direction(b) { old(self).joypad.directions } else {
                old(self).joypad.actions
            }) & button_bit(b) == 0),
            final(self).joypad.select == old(self).joypad.select,
            is_direction(b) ==> final(self).joypad.actions == old(self).joypad.actions,
            is_direction(b) ==> final(self).joypad.directions == if pressed {
                old(self).joypad.directions | button_bit(b)
            } else {
                old(self).joypad.directions & !button_bit(b)
            },
            !is_direction(b) ==> final(self).joypad.directions == old(self).joypad.directions,
            !is_direction(b) ==> final(self).joypad.actions == if pressed {
                old(self).joypad.actions | button_bit(b)
            } else {
                old(self).joypad.actions & !button_bit(b)
            },
    {
        let pressed_now = self.joypad.set_button(b, pressed);
        if pressed_now {
            self.ints.request(JOYPAD);
        }
        pressed_now
    }
}


/// Sum of the bytes that reads of `0x134 ..= 0x134 + n - 1` yield.
pub open spec fn read_sum<V: VideoOutput, D: Audio>(m: Mmu<Rom, V, D>, n: nat) -> int
    decreases n,
{
    if n == 0 {
        0
    } else {
        read_sum(m, (n - 1) as nat) + m.read_spec((0x134 + n - 1) as u16) as int
    }
}

/// While the fixed window shows bank 0 (always so for a freshly mounted image),
/// the first 16 KiB of the address space read as the image, so the header
/// checksum computed through the memory map is that of the image.
pub proof fn lemma_header_through_machine<V: VideoOutput, D: Audio>(m: Mmu<Rom, V, D>)
    requires
        m.wf(),
        m.cartridge.low_bank() == 0,
    ensures
        forall|a: u16| a < 0x4000 ==> #[trigger] m.read_spec(a) == m.cartridge.data@[a as int],
        (0x19 + read_sum(m, 0x1a)) % 256 == checksum_of(m.cartridge.data@),
{
    lemma_read_sum(m, 0x1a);
}

proof fn lemma_read_sum<V: VideoOutput, D: Audio>(m: Mmu<Rom, V, D>, n: nat)
    requires
        m.wf(),
        m.cartridge.low_bank() == 0,
        n <= 0x1a,
    ensures
        read_sum(m, n) == header_sum(m.cartridge.data@, n),
    decreases n,
{
    if n > 0 {
        lemma_read_sum(m, (n - 1) as nat);
    }
}

/// Selecting a ROM bank through the memory map and then reading the switchable
/// window yields the image bytes of the selected bank, masked to the image's
/// bank count.
pub proof fn lemma_bank_switch_through_machine<V: VideoOutput, D: Audio>(
    m: Mmu<Rom, V, D>,
    after: Mmu<Rom, V, D>,
    v: u8,
    addr: u16,
)
    requires
        m.wf(),
        m.cartridge.kind is Mbc3 || (m.cartridge.kind is Mbc1 && m.cartridge.ram_bank % 4 == 0),
        m.cartridge.write_spec(&after.cartridge, 0x2000, v),
        0x4000 <= addr < 0x8000,
    ensures
        after.read_spec(addr) == m.cartridge.data@[(bank_select(m.cartridge.kind, v)
            % m.cartridge.rom_banks) * 0x4000 + (addr - 0x4000)],
{
    crate::cartridge::lemma_bank_switch(m.cartridge, after.cartridge, v, addr);
}

} // verus!
