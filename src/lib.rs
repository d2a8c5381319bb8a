use vstd::prelude::*;
use std::marker::PhantomData;
use apu::Audio;
use cartridge::Cartridge;
use cpu::Cpu;
use mmu::Mmu;
use ppu::{Palette, VideoOutput};

pub mod apu;
pub mod cartridge;
pub mod cpu;
pub mod interrupts;
pub mod joypad;
pub mod mmu;
pub mod ppu;
pub mod timer;

verus! {

/// Processor clock rate in cycles per second.
pub const CLOCK: u64 = 4194304;

/// Clock cycles of one display refresh: 154 scanlines of 456 cycles.
pub const FRAME_CYCLES: u64 = 70224;

/// Hardware compatibility mode.
#[derive(Clone, Copy, Debug, PartialEq, Eq, Hash, Structural)]
pub enum Mode {
    /// Monochrome.
    GB,
    /// Color.
    CGB,
}


/// A complete machine: processor, memory dispatcher and the cycle carry between
/// frames.
pub struct Dmg<C: Cartridge, V: VideoOutput, D: Audio> {
    pub cpu: Cpu,
    pub mmu: Box<Mmu<C, V, D>>,
    /// Overshoot of the last frame, in clock cycles.
    pub carry: u64,
}

impl<C: Cartridge, V: VideoOutput, D: Audio> Dmg<C, V, D> {
    pub open spec fn wf(&self) -> bool {
        self.mmu.wf() && self.carry < 24
    }

    /// The carried-over cycles of the last frame.
    pub fn carry(&self) -> (r: u64)
        ensures
            r == self.carry,
    {
        self.carry
    }

    /// Emulates one display refresh, threading the cycle carry through.
    pub fn emulate_frame(&mut self)
        requires
            old(self).wf(),
        ensures
            final(self).wf(),
            final(self).carry < FRAME_CYCLES,
            final(self).mmu.ppu.resets@ >= old(self).mmu.ppu.resets@,
            final(self).cpu.cycles@ == old(self).cpu.cycles@ + (final(self).carry + 70224 - old(self).carry),
            final(self).mmu.elapsed@ == old(self).mmu.elapsed@ + (final(self).carry + 70224
                - old(self).carry),
            final(self).cpu.steps@ >= old(self).cpu.steps@ + 1,
            final(self).carry < final(self).cpu.last@,
            4 * (final(self).cpu.steps@ - old(self).cpu.steps@ - 1) < 70224 - old(self).carry,
            final(self).cpu.trace@.len() == old(self).cpu.trace@.len() + (final(self).cpu.steps@
                - old(self).cpu.steps@),
            final(self).cpu.trace@[old(self).cpu.trace@.len() as int] == if cpu::services(
                old(self).cpu,
                *old(self).mmu,
            ) {
                Some(interrupts::priority_of(old(self).mmu.ints.active_spec())->Some_0)
            } else {
                None
            },
            cpu::services(old(self).cpu, *old(self).mmu) ==> final(self).cpu.serviced@.len()
                > old(self).cpu.serviced@.len() && final(self).cpu.serviced@[old(self).cpu.serviced@.len() as int]
                == interrupts::priority_of(old(self).mmu.ints.active_spec())->Some_0,
            old(self).mmu.ppu.lcd_on() && old(self).mmu.ppu.position() == old(self).carry
                && final(self).mmu.ppu.resets == old(self).mmu.ppu.resets ==> {
                &&& final(self).mmu.ppu.rendered@ == old(self).mmu.ppu.rendered@ + Seq::new(
                    144,
                    |i: int| i,
                )
                &&& final(self).mmu.ppu.position() == final(self).carry
                &&& final(self).mmu.ppu.lcd_on()
                &&& V::keeps_log() ==> final(self).mmu.video.lines() == old(self).mmu.video.lines()
                    + Seq::new(144, |i: int| i)
            },
    {
        let ghost carry0 = self.carry;
        let ghost pos0 = self.mmu.ppu.position();
        self.carry = self.mmu.emulate_frame(&mut self.cpu, self.carry);
        proof {
            let r = self.carry as int;
            let elapsed = (r + 70224 - carry0) as nat;
            if pos0 == carry0 {
                ppu::lemma_frame_emits_every_line_once(carry0 as int, elapsed);
                vstd::arithmetic::div_mod::lemma_fundamental_div_mod_converse(pos0 + elapsed, 70224, 1, r);
            }
        }
    }

    /// Return the Memory Manager Unit (MMU).
    pub fn mmu(&self) -> (r: &Mmu<C, V, D>)
        ensures
            *r == *self.mmu,
    {
        &self.mmu
    }

    /// Return the Memory Manager Unit (MMU) as mutable.
    pub fn mmu_mut(&mut self) -> (r: &mut Mmu<C, V, D>)
        ensures
            *r == *old(self).mmu,
            *final(self).mmu == *final(r),
            final(self).cpu == old(self).cpu,
            final(self).carry == old(self).carry,
    {
        &mut self.mmu
    }

    /// Return the CPU.
    pub fn cpu(&self) -> (r: &Cpu)
        ensures
            *r == self.cpu,
    {
        &self.cpu
    }

    /// Return the CPU as mutable.
    pub fn cpu_mut(&mut self) -> (r: &mut Cpu)
        ensures
            *r == old(self).cpu,
            final(self).cpu == *final(r),
            final(self).mmu == old(self).mmu,
            final(self).carry == old(self).carry,
    {
        &mut self.cpu
    }
}

/// Configuration of a machine before it is built.
pub struct Builder<C: Cartridge, V: VideoOutput, D: Audio> {
    pub _phantom: PhantomData<D>,
    pub mode: Option<Mode>,
    pub palette: Option<Palette>,
    pub skip_boot: bool,
    pub cartridge: C,
    pub video: V,
}

impl Default for Builder<(), (), ()> {
    fn default() -> (r: Self)
        ensures
            r.mode is None && r.palette is None && !r.skip_boot,
    {
        Self { _phantom: PhantomData, mode: None, palette: None, skip_boot: false, cartridge: (), video: () }
    }
}

/// The I/O registers after the boot firmware, and their values.
pub open spec fn post_boot_io<C: Cartridge, V: VideoOutput, D: Audio>(m: Mmu<C, V, D>) -> bool {
    &&& m.read_spec(0xff05) == 0x00
    &&& m.read_spec(0xff06) == 0x00
    &&& m.read_spec(0xff07) == 0x00
    &&& m.read_spec(0xff10) == 0x80
    &&& m.read_spec(0xff11) == 0xbf
    &&& m.read_spec(0xff12) == 0xf3
    &&& m.read_spec(0xff14) == 0xbf
    &&& m.read_spec(0xff16) == 0x3f
    &&& m.read_spec(0xff17) == 0x00
    &&& m.read_spec(0xff19) == 0xbf
    &&& m.read_spec(0xff1a) == 0x7f
    &&& m.read_spec(0xff1b) == 0xff
    &&& m.read_spec(0xff1c) == 0x9f
    &&& m.read_spec(0xff1e) == 0xbf
    &&& m.read_spec(0xff20) == 0xff
    &&& m.read_spec(0xff21) == 0x00
    &&& m.read_spec(0xff22) == 0x00
    &&& m.read_spec(0xff23) == 0xbf
    &&& m.read_spec(0xff24) == 0x77
    &&& m.read_spec(0xff25) == 0xf3
    &&& m.read_spec(0xff26) == 0xf1
    &&& m.read_spec(0xff40) == 0x91
    &&& m.read_spec(0xff42) == 0x00
    &&& m.read_spec(0xff43) == 0x00
    &&& m.read_spec(0xff45) == 0x00
    &&& m.read_spec(0xff47) == 0xfc
    &&& m.read_spec(0xff48) == 0xff
    &&& m.read_spec(0xff49) == 0xff
    &&& m.read_spec(0xff4a) == 0x00
    &&& m.read_spec(0xff4b) == 0x00
    &&& m.read_spec(0xffff) == 0x00
    &&& m.read_spec(0xff50) == 0x01
}

/// Addresses that the post-boot table writes.
pub open spec fn boot_written(a: u16) -> bool {
    ||| 0xff05 <= a <= 0xff07
    ||| a == 0xff10 || a == 0xff11 || a == 0xff12 || a == 0xff14 || a == 0xff16 || a == 0xff17
    ||| a == 0xff19 || a == 0xff1a || a == 0xff1b || a == 0xff1c || a == 0xff1e
    ||| 0xff20 <= a <= 0xff26
    ||| a == 0xff40 || a == 0xff42 || a == 0xff43 || a == 0xff45
    ||| 0xff47 <= a <= 0xff4b
    ||| a == 0xff50 || a == 0xffff
}

/// The processor registers after the boot firmware in mode `mode`.
pub open spec fn post_boot_cpu(cpu: Cpu, mode: Mode) -> bool {
    &&& cpu.reg.a == if mode is CGB { 0x11u8 } else { 0x01u8 }
    &&& cpu.reg.f == 0xb0
    &&& cpu.reg.bc_spec() == 0x0013
    &&& cpu.reg.de_spec() == 0x00d8
    &&& cpu.reg.hl_spec() == 0x014d
    &&& cpu.reg.sp == 0xfffe
    &&& cpu.reg.pc == 0x0100
}

impl<C: Cartridge, V: VideoOutput, D: Audio> Builder<C, V, D> {
    pub fn with_audio<D2: Audio>(self) -> (r: Builder<C, V, D2>)
        ensures
            r.mode == self.mode && r.skip_boot == self.skip_boot && r.palette == self.palette,
            r.cartridge == self.cartridge && r.video == self.video,
    {
        Builder {
            _phantom: PhantomData,
            mode: self.mode,
            skip_boot: self.skip_boot,
            palette: self.palette,
            cartridge: self.cartridge,
            video: self.video,
        }
    }

    pub fn with_cartridge<C2: Cartridge>(self, cartridge: C2) -> (r: Builder<C2, V, D>)
        ensures
            r.mode == self.mode && r.skip_boot == self.skip_boot && r.palette == self.palette,
            r.cartridge == cartridge && r.video == self.video,
    {
        Builder {
            _phantom: PhantomData,
            mode: self.mode,
            skip_boot: self.skip_boot,
            palette: self.palette,
            cartridge,
            video: self.video,
        }
    }

    pub fn with_video<V2: VideoOutput>(self, video: V2) -> (r: Builder<C, V2, D>)
        ensures
            r.mode == self.mode && r.skip_boot == self.skip_boot && r.palette == self.palette,
            r.cartridge == self.cartridge && r.video == video,
    {
        Builder {
            _phantom: PhantomData,
            mode: self.mode,
            skip_boot: self.skip_boot,
            palette: self.palette,
            cartridge: self.cartridge,
            video,
        }
    }

    /// Set the default color palette on GB mode.
    ///
    /// The palette can be modified afterwards from the PPU at any time. This is
    /// just a way to initialize it to something other than GRAYSCALE values.
    pub fn with_palette(self, palette: Palette) -> (r: Self)
        ensures
            r.palette == Some(palette) && r.mode == self.mode && r.skip_boot == self.skip_boot,
            r.cartridge == self.cartridge && r.video == self.video,
    {
        Builder { palette: Some(palette), ..self }
    }

    /// Disable boot rom. The boot rom is not part of this build, so it is always
    /// skipped: this only records the choice.
    pub fn skip_boot(self) -> (r: Self)
        ensures
            r.skip_boot && r.palette == self.palette && r.mode == self.mode,
            r.cartridge == self.cartridge && r.video == self.video,
    {
        Builder { skip_boot: true, ..self }
    }

    /// Set the preferred mode.
    ///
    /// By default, games that support both GB and CGB modes will default to
    /// using CGB if not otherwise specified by this method.
    pub fn with_mode(self, mode: Mode) -> (r: Self)
        ensures
            r.mode == Some(mode) && r.palette == self.palette && r.skip_boot == self.skip_boot,
            r.cartridge == self.cartridge && r.video == self.video,
    {
        Builder { mode: Some(mode), ..self }
    }

    /// Assembles the machine and puts it in the state that the boot firmware
    /// leaves behind.
    #[verifier::rlimit(100)]
    pub fn build(self) -> (r: Dmg<C, V, D>)
        requires
            self.cartridge.wf(),
        ensures
            r.wf(),
            r.carry == 0,
            r.mmu.mode == match self.mode {
                Some(m) => m,
                None => Mode::CGB,
            },
            post_boot_cpu(r.cpu, r.mmu.mode),
            post_boot_io(*r.mmu),
            forall|a: u16| #[trigger] r.mmu.read_spec(a) == mmu::boot_read(self.cartridge, a),
            r.mmu.ppu.lcd_on() && r.mmu.ppu.position() == r.carry,
            !r.cpu.ime && !r.cpu.halted && !r.cpu.stopped && !r.cpu.locked,
            r.mmu.cartridge == self.cartridge,
            r.mmu.video == self.video,
            r.mmu.ppu.palette == match (self.palette, r.mmu.mode) {
                (Some(p), Mode::GB) => p,
                _ => ppu::grayscale_spec(),
            },
    {
        let cartridge = self.cartridge;
        let mode = match self.mode {
            Some(m) => m,
            None => Mode::CGB,
        };
        let video = self.video;
        let mut cpu = Cpu::default();
        cpu.reg.set_af(0x01b0);
        cpu.reg.set_bc(0x0013);
        cpu.reg.set_de(0x00d8);
        cpu.reg.set_hl(0x014d);
        cpu.reg.sp = 0xfffe;
        cpu.reg.pc = 0x0100;
        assert(0xb0u8 & 0xf0 == 0xb0) by (bit_vector);
        if mode == Mode::CGB {
            cpu.reg.a = 0x11;
        }
        let mut mmu: Mmu<C, V, D> = Mmu::with_cartridge_and_video(cartridge, mode, video);
        let ghost m0 = mmu;
        proof {
            assert((0xc0u8 | (0x30u8 & 0x30) | (!(0u8 | 0u8) & 0x0f)) == 0xff) by (bit_vector);
            assert(0x30u8 & 0x10 != 0 && 0x30u8 & 0x20 != 0) by (bit_vector);
            assert((0u16 >> 8u16) as u8 == 0) by (bit_vector);
            assert(0u8 & 0x3f == 0) by (bit_vector);
            assert forall|a: u16|
                !(0xff01 <= a <= 0xffff) && a != 0xff00 implies #[trigger] m0.read_spec(a) == mmu::boot_read(
                m0.cartridge,
                a,
            ) by {}
        }
        mmu.write(0xff05, 0x00);
        mmu.write(0xff06, 0x00);
        mmu.write(0xff07, 0x00);
        assert(0u8 & 7 == 0) by (bit_vector);
        mmu.write(0xff10, 0x80);
        mmu.write(0xff11, 0xbf);
        mmu.write(0xff12, 0xf3);
        mmu.write(0xff14, 0xbf);
        mmu.write(0xff16, 0x3f);
        mmu.write(0xff17, 0x00);
        mmu.write(0xff19, 0xbf);
        mmu.write(0xff1a, 0x7f);
        mmu.write(0xff1b, 0xff);
        mmu.write(0xff1c, 0x9f);
        mmu.write(0xff1e, 0xbf);
        mmu.write(0xff20, 0xff);
        mmu.write(0xff21, 0x00);
        mmu.write(0xff22, 0x00);
        mmu.write(0xff23, 0xbf);
        mmu.write(0xff24, 0x77);
        mmu.write(0xff25, 0xf3);
        mmu.write(0xff26, 0xf1);
        mmu.write(0xff40, 0x91);
        assert(0x91u8 & 0x80 != 0) by (bit_vector);
        mmu.write(0xff42, 0x00);
        mmu.write(0xff43, 0x00);
        mmu.write(0xff45, 0x00);
        mmu.write(0xff47, 0xfc);
        mmu.write(0xff48, 0xff);
        mmu.write(0xff49, 0xff);
        mmu.write(0xff4a, 0x00);
        mmu.write(0xff4b, 0x00);
        mmu.write(0xffff, 0x00);
        mmu.write(0xff50, 0x01);
        proof {
            assert((0x80u8 | (0u8 & 0x78) | 0x04u8 | (2u8 & 3)) == 0x86) by (bit_vector);
            assert(mmu.read_spec(0xff41) == 0x86);
            assert(mmu.read_spec(0xff44) == 0);
            assert forall|a: u16| #[trigger] mmu.read_spec(a) == mmu::boot_read(mmu.cartridge, a) by {
                if boot_written(a) {
                } else if a == 0xff41 || a == 0xff44 {
                } else {
                    assert(mmu.read_spec(a) == m0.read_spec(a));
                    if 0xff00 <= a < 0xff80 {
                        assert(m0.io_read_spec(a) == mmu::boot_read(m0.cartridge, a));
                    }
                    assert(m0.read_spec(a) == mmu::boot_read(m0.cartridge, a));
                }
            }
        }
        if let (Some(pal), Mode::GB) = (self.palette, mode) {
            let ghost before = mmu;
            mmu.ppu.set_palette(pal);
            assert forall|b: u16| #[trigger] mmu.read_spec(b) == before.read_spec(b) by {
                if 0xff00 <= b < 0xff80 {
                    assert(mmu.io_read_spec(b) == before.io_read_spec(b));
                }
            }
        }
        Dmg { cpu, mmu: Box::new(mmu), carry: 0 }
    }
}


/// Two machines that `build` produced from builders with the same cartridge and
/// mode (whatever their `skip_boot` setting) agree at every address and in every
/// processor register.
pub proof fn lemma_equal_builds_agree<C: Cartridge, V: VideoOutput, D: Audio>(
    d1: Dmg<C, V, D>,
    d2: Dmg<C, V, D>,
    cart: C,
    mode: Mode,
)
    requires
        post_boot_cpu(d1.cpu, mode),
        post_boot_cpu(d2.cpu, mode),
        forall|a: u16| #[trigger] d1.mmu.read_spec(a) == mmu::boot_read(cart, a),
        forall|a: u16| #[trigger] d2.mmu.read_spec(a) == mmu::boot_read(cart, a),
    ensures
        d1.cpu.reg == d2.cpu.reg,
        forall|a: u16| #[trigger] d1.mmu.read_spec(a) == d2.mmu.read_spec(a),
{
    assert forall|a: u16| #[trigger] d1.mmu.read_spec(a) == d2.mmu.read_spec(a) by {
        assert(d1.mmu.read_spec(a) == mmu::boot_read(cart, a));
        assert(d2.mmu.read_spec(a) == mmu::boot_read(cart, a));
    }
}

} // verus!
