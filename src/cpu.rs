//! The processor: registers, arithmetic with its flag rules, and instruction stepping.
use vstd::prelude::*;
use crate::apu::Audio;
use crate::cartridge::Cartridge;
use crate::interrupts::{priority_of, vector_of};
use crate::mmu::Mmu;
use crate::ppu::VideoOutput;

verus! {

/// Zero flag.
pub const FLAG_Z: u8 = 0x80;
/// Subtract flag.
pub const FLAG_N: u8 = 0x40;
/// Half-carry flag.
pub const FLAG_H: u8 = 0x20;
/// Carry flag.
pub const FLAG_C: u8 = 0x10;

/// The flags register made of four conditions.
pub open spec fn flags_of(z: bool, n: bool, h: bool, c: bool) -> u8 {
    ((if z { 0x80int } else { 0 }) + (if n { 0x40int } else { 0 }) + (if h { 0x20int } else { 0 }) + (
    if c { 0x10int } else { 0 })) as u8
}

fn make_flags(z: bool, n: bool, h: bool, c: bool) -> (r: u8)
    ensures
        r == flags_of(z, n, h, c),
{
    (if z { 0x80u8 } else { 0 }) + (if n { 0x40u8 } else { 0 }) + (if h { 0x20u8 } else { 0 }) + (
    if c { 0x10u8 } else { 0 })
}

pub open spec fn carry_of(f: u8) -> bool {
    f & 0x10 != 0
}

pub open spec fn half_of(f: u8) -> bool {
    f & 0x20 != 0
}

pub open spec fn sub_of(f: u8) -> bool {
    f & 0x40 != 0
}

pub open spec fn zero_of(f: u8) -> bool {
    f & 0x80 != 0
}

/// Result and flags of the eight-bit arithmetic and logic operation `op` (0 ADD,
/// 1 ADC, 2 SUB, 3 SBC, 4 AND, 5 XOR, 6 OR, 7 CP) on `a` and `b` with flags `f`.
pub open spec fn alu_spec(op: u8, a: u8, b: u8, f: u8) -> (u8, u8) {
    let cin: int = if (op == 1 || op == 3) && carry_of(f) { 1 } else { 0 };
    if op == 0 || op == 1 {
        let s = a as int + b as int + cin;
        let r = (s % 256) as u8;
        (r, flags_of(r == 0, false, (a & 0xf) as int + (b & 0xf) as int + cin > 0xf, s > 0xff))
    } else if op == 2 || op == 3 || op == 7 {
        let d = a as int - b as int - cin;
        let r = ((d + 256) % 256) as u8;
        let res = if op == 7 { a } else { r };
        (res, flags_of(r == 0, true, ((a & 0xf) as int) < (b & 0xf) as int + cin, d < 0))
    } else if op == 4 {
        (a & b, flags_of(a & b == 0, false, true, false))
    } else if op == 5 {
        (a ^ b, flags_of(a ^ b == 0, false, false, false))
    } else {
        (a | b, flags_of(a | b == 0, false, false, false))
    }
}

/// Eight-bit arithmetic and logic with the hardware's flag rules.
pub fn alu(op: u8, a: u8, b: u8, f: u8) -> (r: (u8, u8))
    requires
        op < 8,
    ensures
        r == alu_spec(op, a, b, f),
{
    let cin: u16 = if (op == 1 || op == 3) && f & 0x10 != 0 { 1 } else { 0 };
    if op == 0 || op == 1 {
        let s: u16 = a as u16 + b as u16 + cin;
        let r = (s % 256) as u8;
        (r, make_flags(r == 0, false, (a & 0xf) as u16 + (b & 0xf) as u16 + cin > 0xf, s > 0xff))
    } else if op == 2 || op == 3 || op == 7 {
        let r = ((a as u16 + 256 - b as u16 - cin) % 256) as u8;
        let res = if op == 7 { a } else { r };
        (res, make_flags(r == 0, true, ((a & 0xf) as u16) < (b & 0xf) as u16 + cin, (a as u16) < b as u16 + cin))
    } else if op == 4 {
        (a & b, make_flags(a & b == 0, false, true, false))
    } else if op == 5 {
        (a ^ b, make_flags(a ^ b == 0, false, false, false))
    } else {
        (a | b, make_flags(a | b == 0, false, false, false))
    }
}

/// Increment of an eight-bit value; the carry flag is kept.
pub open spec fn inc_spec(v: u8, f: u8) -> (u8, u8) {
    let r = ((v as int + 1) % 256) as u8;
    (r, flags_of(r == 0, false, v & 0xf == 0xf, carry_of(f)))
}

/// Decrement of an eight-bit value; the carry flag is kept.
pub open spec fn dec_spec(v: u8, f: u8) -> (u8, u8) {
    let r = ((v as int + 255) % 256) as u8;
    (r, flags_of(r == 0, true, v & 0xf == 0, carry_of(f)))
}

pub fn inc8(v: u8, f: u8) -> (r: (u8, u8))
    ensures
        r == inc_spec(v, f),
{
    let r = ((v as u16 + 1) % 256) as u8;
    (r, make_flags(r == 0, false, v & 0xf == 0xf, f & 0x10 != 0))
}

pub fn dec8(v: u8, f: u8) -> (r: (u8, u8))
    ensures
        r == dec_spec(v, f),
{
    let r = ((v as u16 + 255) % 256) as u8;
    (r, make_flags(r == 0, true, v & 0xf == 0, f & 0x10 != 0))
}

/// Result and flags of the rotate, shift and swap group (`op` 0 RLC, 1 RRC, 2 RL,
/// 3 RR, 4 SLA, 5 SRA, 6 SWAP, 7 SRL) of the extended opcodes.
pub open spec fn shift_spec(op: u8, v: u8, f: u8) -> (u8, u8) {
    let cin: u8 = if carry_of(f) { 1 } else { 0 };
    let (r, c) = if op == 0 {
        ((v << 1u8) | (v >> 7u8), v & 0x80 != 0)
    } else if op == 1 {
        ((v >> 1u8) | (v << 7u8), v & 1 != 0)
    } else if op == 2 {
        ((v << 1u8) | cin, v & 0x80 != 0)
    } else if op == 3 {
        ((v >> 1u8) | (cin << 7u8), v & 1 != 0)
    } else if op == 4 {
        (v << 1u8, v & 0x80 != 0)
    } else if op == 5 {
        ((v >> 1u8) | (v & 0x80), v & 1 != 0)
    } else if op == 6 {
        ((v >> 4u8) | (v << 4u8), false)
    } else {
        (v >> 1u8, v & 1 != 0)
    };
    (r, flags_of(r == 0, false, false, c))
}

pub fn shift(op: u8, v: u8, f: u8) -> (r: (u8, u8))
    requires
        op < 8,
    ensures
        r == shift_spec(op, v, f),
{
    let cin: u8 = if f & 0x10 != 0 { 1 } else { 0 };
    let (r, c) = if op == 0 {
        ((v << 1u8) | (v >> 7u8), v & 0x80 != 0)
    } else if op == 1 {
        ((v >> 1u8) | (v << 7u8), v & 1 != 0)
    } else if op == 2 {
        ((v << 1u8) | cin, v & 0x80 != 0)
    } else if op == 3 {
        ((v >> 1u8) | (cin << 7u8), v & 1 != 0)
    } else if op == 4 {
        (v << 1u8, v & 0x80 != 0)
    } else if op == 5 {
        ((v >> 1u8) | (v & 0x80), v & 1 != 0)
    } else if op == 6 {
        ((v >> 4u8) | (v << 4u8), false)
    } else {
        (v >> 1u8, v & 1 != 0)
    };
    (r, make_flags(r == 0, false, false, c))
}

/// Decimal adjustment of `a` after a binary-coded-decimal addition or subtraction.
pub open spec fn daa_spec(a: u8, f: u8) -> (u8, u8) {
    if !sub_of(f) {
        let hi = carry_of(f) || a > 0x99;
        let lo = half_of(f) || (a & 0xf) > 9;
        let adj: int = (if hi { 0x60int } else { 0 }) + (if lo { 6int } else { 0 });
        let r = ((a as int + adj) % 256) as u8;
        (r, flags_of(r == 0, false, false, hi))
    } else {
        let adj: int = (if carry_of(f) { 0x60int } else { 0 }) + (if half_of(f) { 6int } else { 0 });
        let r = ((a as int + 256 - adj) % 256) as u8;
        (r, flags_of(r == 0, true, false, carry_of(f)))
    }
}

pub fn daa(a: u8, f: u8) -> (r: (u8, u8))
    ensures
        r == daa_spec(a, f),
{
    if f & 0x40 == 0 {
        let hi = f & 0x10 != 0 || a > 0x99;
        let lo = f & 0x20 != 0 || (a & 0xf) > 9;
        let adj: u16 = (if hi { 0x60u16 } else { 0 }) + (if lo { 6u16 } else { 0 });
        let r = ((a as u16 + adj) % 256) as u8;
        (r, make_flags(r == 0, false, false, hi))
    } else {
        let adj: u16 = (if f & 0x10 != 0 { 0x60u16 } else { 0 }) + (if f & 0x20 != 0 { 6u16 } else { 0 });
        let r = ((a as u16 + 256 - adj) % 256) as u8;
        (r, make_flags(r == 0, true, false, f & 0x10 != 0))
    }
}

/// Eight-bit registers, stack pointer and program counter.
#[derive(Clone, Copy, Debug, PartialEq, Eq, Structural)]
pub struct Registers {
    pub a: u8,
    pub f: u8,
    pub b: u8,
    pub c: u8,
    pub d: u8,
    pub e: u8,
    pub h: u8,
    pub l: u8,
    pub sp: u16,
    pub pc: u16,
}

pub open spec fn pair(hi: u8, lo: u8) -> u16 {
    (hi as int * 256 + lo as int) as u16
}

fn make_pair(hi: u8, lo: u8) -> (r: u16)
    ensures
        r == pair(hi, lo),
{
    hi as u16 * 256 + lo as u16
}

impl Registers {
    pub open spec fn bc_spec(&self) -> u16 {
        pair(self.b, self.c)
    }

    pub open spec fn de_spec(&self) -> u16 {
        pair(self.d, self.e)
    }

    pub open spec fn hl_spec(&self) -> u16 {
        pair(self.h, self.l)
    }

    pub open spec fn af_spec(&self) -> u16 {
        pair(self.a, self.f)
    }

    pub fn af(&self) -> (r: u16)
        ensures
            r == self.af_spec(),
    {
        make_pair(self.a, self.f)
    }

    pub fn bc(&self) -> (r: u16)
        ensures
            r == self.bc_spec(),
    {
        make_pair(self.b, self.c)
    }

    pub fn de(&self) -> (r: u16)
        ensures
            r == self.de_spec(),
    {
        make_pair(self.d, self.e)
    }

    pub fn hl(&self) -> (r: u16)
        ensures
            r == self.hl_spec(),
    {
        make_pair(self.h, self.l)
    }

    /// Sets `A` and `F`; the low four bits of `F` always read 0.
    pub fn set_af(&mut self, v: u16)
        ensures
            *final(self) == (Registers { a: (v / 256) as u8, f: ((v % 256) as u8) & 0xf0, ..*old(self) }),
    {
        self.a = (v / 256) as u8;
        self.f = ((v % 256) as u8) & 0xf0;
    }

    pub fn set_bc(&mut self, v: u16)
        ensures
            *final(self) == (Registers { b: (v / 256) as u8, c: (v % 256) as u8, ..*old(self) }),
    {
        self.b = (v / 256) as u8;
        self.c = (v % 256) as u8;
    }

    pub fn set_de(&mut self, v: u16)
        ensures
            *final(self) == (Registers { d: (v / 256) as u8, e: (v % 256) as u8, ..*old(self) }),
    {
        self.d = (v / 256) as u8;
        self.e = (v % 256) as u8;
    }

    pub fn set_hl(&mut self, v: u16)
        ensures
            *final(self) == (Registers { h: (v / 256) as u8, l: (v % 256) as u8, ..*old(self) }),
    {
        self.h = (v / 256) as u8;
        self.l = (v % 256) as u8;
    }
}

/// Register `idx` of the register field (B, C, D, E, H, L, -, A); `idx != 6`.
pub open spec fn reg_spec(r: Registers, idx: u8) -> u8 {
    if idx == 0 {
        r.b
    } else if idx == 1 {
        r.c
    } else if idx == 2 {
        r.d
    } else if idx == 3 {
        r.e
    } else if idx == 4 {
        r.h
    } else if idx == 5 {
        r.l
    } else {
        r.a
    }
}

/// The registers with register `idx` (`idx != 6`) set to `v`.
pub open spec fn set_reg_spec(r: Registers, idx: u8, v: u8) -> Registers {
    if idx == 0 {
        Registers { b: v, ..r }
    } else if idx == 1 {
        Registers { c: v, ..r }
    } else if idx == 2 {
        Registers { d: v, ..r }
    } else if idx == 3 {
        Registers { e: v, ..r }
    } else if idx == 4 {
        Registers { h: v, ..r }
    } else if idx == 5 {
        Registers { l: v, ..r }
    } else {
        Registers { a: v, ..r }
    }
}

/// Whether the processor executes an instruction fetched from `PC` in this step,
/// rather than idling or servicing an interrupt.
pub open spec fn executes<C: Cartridge, V: VideoOutput, D: Audio>(cpu: Cpu, mmu: Mmu<C, V, D>) -> bool {
    &&& !cpu.locked
    &&& !cpu.halted || mmu.ints.active_spec() != 0
    &&& !cpu.stopped || mmu.ints.flags & crate::interrupts::JOYPAD != 0
    &&& !(cpu.ime && mmu.ints.active_spec() != 0)
}

/// Registers after an opcode of the load and arithmetic blocks (0x40 ..= 0xbf) that
/// names no memory operand: `LD r, r'` or an arithmetic operation on `A` and `r'`.
pub open spec fn reg_op_spec(r: Registers, op: u8) -> Registers {
    let y = (op >> 3u8) & 7;
    let z = op & 7;
    if op < 0x80 {
        set_reg_spec(r, y, reg_spec(r, z))
    } else {
        let (a, f) = alu_spec(y, r.a, reg_spec(r, z), r.f);
        Registers { a, f, ..r }
    }
}

/// `v` plus the signed displacement `d`, modulo 2^16.
pub open spec fn offset_spec(v: u16, d: u8) -> u16 {
    let s: int = if d < 128 { d as int } else { d as int - 256 };
    ((v as int + s + 0x10000) % 0x10000) as u16
}

/// Whether `op` loads an immediate byte into a register (`LD r, n`, not `(HL)`).
pub open spec fn is_load_imm(op: u8) -> bool {
    op < 0x40 && op & 7 == 6 && (op >> 3u8) & 7 != 6
}

/// Whether `op` is an opcode that `reg_op_spec` describes.
pub open spec fn is_reg_op(op: u8) -> bool {
    0x40 <= op < 0xc0 && op != 0x76 && op & 7 != 6 && (op >= 0x80 || (op >> 3u8) & 7 != 6)
}

/// Processor state.
pub struct Cpu {
    pub reg: Registers,
    /// Interrupt master enable.
    pub ime: bool,
    pub halted: bool,
    pub stopped: bool,
    /// Set by an undefined opcode: the processor hangs.
    pub locked: bool,
    /// Clock cycles consumed so far.
    pub cycles: Ghost<nat>,
    /// Steps taken so far.
    pub steps: Ghost<nat>,
    /// Interrupts serviced so far, in order.
    pub serviced: Ghost<Seq<u8>>,
    /// Clock cycles of the last step.
    pub last: Ghost<nat>,
    /// For each step so far, the interrupt it serviced, if any.
    pub trace: Ghost<Seq<Option<u8>>>,
}

/// Whether the step from `cpu` over `mmu` services an interrupt.
pub open spec fn services<C: Cartridge, V: VideoOutput, D: Audio>(cpu: Cpu, mmu: Mmu<C, V, D>) -> bool {
    &&& !cpu.locked
    &&& !cpu.stopped || mmu.ints.flags & crate::interrupts::JOYPAD != 0
    &&& cpu.ime
    &&& mmu.ints.active_spec() != 0
}

impl Default for Cpu {
    fn default() -> (r: Cpu)
        ensures
            r.reg == (Registers { a: 0, f: 0, b: 0, c: 0, d: 0, e: 0, h: 0, l: 0, sp: 0, pc: 0 }),
            !r.ime && !r.halted && !r.stopped && !r.locked,
            r.cycles@ == 0 && r.steps@ == 0 && r.serviced@ == Seq::<u8>::empty(),
    {
        Cpu {
            reg: Registers { a: 0, f: 0, b: 0, c: 0, d: 0, e: 0, h: 0, l: 0, sp: 0, pc: 0 },
            ime: false,
            halted: false,
            stopped: false,
            locked: false,
            cycles: Ghost(0),
            steps: Ghost(0),
            serviced: Ghost(Seq::empty()),
            last: Ghost(0),
            trace: Ghost(Seq::empty()),
        }
    }
}

pub open spec fn inc16_spec(v: u16) -> u16 {
    if v == 0xffff { 0 } else { (v + 1) as u16 }
}

fn inc16(v: u16) -> (r: u16)
    ensures
        r == inc16_spec(v),
{
    if v == 0xffff { 0 } else { v + 1 }
}

pub open spec fn dec16_spec(v: u16) -> u16 {
    if v == 0 { 0xffff } else { (v - 1) as u16 }
}

fn dec16(v: u16) -> (r: u16)
    ensures
        r == dec16_spec(v),
{
    if v == 0 { 0xffff } else { v - 1 }
}

fn add16(a: u16, b: u16) -> (r: u16)
    ensures
        r as int == (a as int + b as int) % 0x10000,
{
    ((a as u32 + b as u32) % 0x10000) as u16
}


impl Cpu {
    /// The registers.
    pub fn reg(&self) -> (r: &Registers)
        ensures
            *r == self.reg,
    {
        &self.reg
    }

    /// The registers, for modification.
    pub fn reg_mut(&mut self) -> (r: &mut Registers)
        ensures
            *r == old(self).reg,
            final(self).reg == *final(r),
            final(self).ime == old(self).ime,
            final(self).halted == old(self).halted,
            final(self).stopped == old(self).stopped,
            final(self).locked == old(self).locked,
    {
        &mut self.reg
    }

    fn fetch8<C: Cartridge, V: VideoOutput, D: Audio>(&mut self, mmu: &Mmu<C, V, D>) -> (r: u8)
        requires
            mmu.wf(),
        ensures
            r == mmu.read_spec(old(self).reg.pc),
            final(self).reg == (Registers { pc: inc16_spec(old(self).reg.pc), ..old(self).reg }),
            final(self).ime == old(self).ime,
            final(self).halted == old(self).halted,
            final(self).stopped == old(self).stopped,
            final(self).locked == old(self).locked,
    {
        let v = mmu.read(self.reg.pc);
        self.reg.pc = inc16(self.reg.pc);
        v
    }

    fn fetch16<C: Cartridge, V: VideoOutput, D: Audio>(&mut self, mmu: &Mmu<C, V, D>) -> (r: u16)
        requires
            mmu.wf(),
        ensures
            r == pair(mmu.read_spec(inc16_spec(old(self).reg.pc)), mmu.read_spec(old(self).reg.pc)),
            final(self).reg == (Registers { pc: inc16_spec(inc16_spec(old(self).reg.pc)), ..old(self).reg }),
            final(self).ime == old(self).ime,
    {
        let lo = self.fetch8(mmu);
        let hi = self.fetch8(mmu);
        make_pair(hi, lo)
    }

    fn push16<C: Cartridge, V: VideoOutput, D: Audio>(&mut self, mmu: &mut Mmu<C, V, D>, v: u16)
        requires
            old(mmu).wf(),
        ensures
            final(mmu).wf(),
            final(self).reg.pc == old(self).reg.pc,
            final(self).ime == old(self).ime,
            final(self).halted == old(self).halted,
            crate::mmu::video_steady(*old(mmu), *final(mmu)),
            final(self).reg.sp == dec16_spec(dec16_spec(old(self).reg.sp)),
            crate::mmu::ram_address(dec16_spec(old(self).reg.sp)) && crate::mmu::ram_address(dec16_spec(dec16_spec(old(self).reg.sp))) ==> {
                &&& final(mmu).read_spec(dec16_spec(old(self).reg.sp)) == (v / 256) as u8
                &&& final(mmu).read_spec(dec16_spec(dec16_spec(old(self).reg.sp))) == (v % 256) as u8
                &&& final(mmu).ints == old(mmu).ints
            },
    {
        let ghost m0 = *mmu;
        self.reg.sp = dec16(self.reg.sp);
        mmu.write(self.reg.sp, (v / 256) as u8);
        let ghost m1 = *mmu;
        self.reg.sp = dec16(self.reg.sp);
        mmu.write(self.reg.sp, (v % 256) as u8);
        proof {
            if crate::mmu::ram_address(dec16_spec(old(self).reg.sp)) && crate::mmu::ram_address(dec16_spec(dec16_spec(old(self).reg.sp))) {
                assert(m1.read_spec(0xff0f) == m0.read_spec(0xff0f));
                assert(m1.read_spec(0xffff) == m0.read_spec(0xffff));
                assert(mmu.read_spec(0xff0f) == m1.read_spec(0xff0f));
                assert(mmu.read_spec(0xffff) == m1.read_spec(0xffff));
                assert(mmu.read_spec(dec16_spec(old(self).reg.sp)) == m1.read_spec(dec16_spec(old(self).reg.sp)));
            }
        }
    }

    fn pop16<C: Cartridge, V: VideoOutput, D: Audio>(&mut self, mmu: &Mmu<C, V, D>) -> (r: u16)
        requires
            mmu.wf(),
        ensures
            final(self).ime == old(self).ime,
    {
        let lo = mmu.read(self.reg.sp);
        self.reg.sp = inc16(self.reg.sp);
        let hi = mmu.read(self.reg.sp);
        self.reg.sp = inc16(self.reg.sp);
        make_pair(hi, lo)
    }

    /// Operand `idx` of the register field: B, C, D, E, H, L, (HL), A.
    fn get_r<C: Cartridge, V: VideoOutput, D: Audio>(&self, mmu: &Mmu<C, V, D>, idx: u8) -> (r: u8)
        requires
            mmu.wf(),
        ensures
            idx != 6 ==> r == reg_spec(self.reg, idx),
    {
        if idx == 0 {
            self.reg.b
        } else if idx == 1 {
            self.reg.c
        } else if idx == 2 {
            self.reg.d
        } else if idx == 3 {
            self.reg.e
        } else if idx == 4 {
            self.reg.h
        } else if idx == 5 {
            self.reg.l
        } else if idx == 6 {
            mmu.read(self.reg.hl())
        } else {
            self.reg.a
        }
    }

    fn set_r<C: Cartridge, V: VideoOutput, D: Audio>(&mut self, mmu: &mut Mmu<C, V, D>, idx: u8, v: u8)
        requires
            old(mmu).wf(),
        ensures
            final(mmu).wf(),
            final(self).reg.pc == old(self).reg.pc,
            final(self).ime == old(self).ime,
            crate::mmu::video_steady(*old(mmu), *final(mmu)),
            idx != 6 ==> final(self).reg == set_reg_spec(old(self).reg, idx, v),
            idx != 6 ==> *final(mmu) == *old(mmu),
            final(self).halted == old(self).halted,
            final(self).stopped == old(self).stopped,
            final(self).locked == old(self).locked,
    {
        if idx == 0 {
            self.reg.b = v;
        } else if idx == 1 {
            self.reg.c = v;
        } else if idx == 2 {
            self.reg.d = v;
        } else if idx == 3 {
            self.reg.e = v;
        } else if idx == 4 {
            self.reg.h = v;
        } else if idx == 5 {
            self.reg.l = v;
        } else if idx == 6 {
            mmu.write(self.reg.hl(), v);
        } else {
            self.reg.a = v;
        }
    }

    /// Register pair `idx`: BC, DE, HL, SP.
    fn get_rr(&self, idx: u8) -> (r: u16) {
        if idx == 0 {
            self.reg.bc()
        } else if idx == 1 {
            self.reg.de()
        } else if idx == 2 {
            self.reg.hl()
        } else {
            self.reg.sp
        }
    }

    fn set_rr(&mut self, idx: u8, v: u16)
        ensures
            final(self).reg.pc == old(self).reg.pc,
            final(self).ime == old(self).ime,
    {
        if idx == 0 {
            self.reg.set_bc(v);
        } else if idx == 1 {
            self.reg.set_de(v);
        } else if idx == 2 {
            self.reg.set_hl(v);
        } else {
            self.reg.sp = v;
        }
    }

    /// Condition `idx`: NZ, Z, NC, C.
    fn cond(&self, idx: u8) -> (r: bool) {
        if idx == 0 {
            self.reg.f & FLAG_Z == 0
        } else if idx == 1 {
            self.reg.f & FLAG_Z != 0
        } else if idx == 2 {
            self.reg.f & FLAG_C == 0
        } else {
            self.reg.f & FLAG_C != 0
        }
    }

    /// Adds a signed displacement to a 16-bit value.
    fn offset(v: u16, d: u8) -> (r: u16)
        ensures
            r == offset_spec(v, d),
    {
        if d < 128 {
            add16(v, d as u16)
        } else {
            add16(v, 0xff00u16 + d as u16)
        }
    }

    fn sp_plus<C: Cartridge, V: VideoOutput, D: Audio>(&mut self, mmu: &Mmu<C, V, D>) -> (r: u16)
        requires
            mmu.wf(),
        ensures
            final(self).ime == old(self).ime,
    {
        let d = self.fetch8(mmu);
        let sp = self.reg.sp;
        let h = (sp & 0xf) as u32 + (d & 0xf) as u32 > 0xf;
        let c = (sp & 0xff) as u32 + d as u32 > 0xff;
        self.reg.f = make_flags(false, false, h, c);
        Self::offset(sp, d)
    }

    /// Opcodes 0x00 ..= 0x3f.
    fn exec_block0<C: Cartridge, V: VideoOutput, D: Audio>(&mut self, mmu: &mut Mmu<C, V, D>, op: u8) -> (r: u64)
        requires
            old(mmu).wf(),
            op < 0x40,
        ensures
            final(mmu).wf(),
            4 <= r <= 24,
            crate::mmu::video_steady(*old(mmu), *final(mmu)),
            is_load_imm(op) ==> r == 8 && *final(mmu) == *old(mmu) && final(self).reg == set_reg_spec(
                Registers { pc: inc16_spec(old(self).reg.pc), ..old(self).reg },
                (op >> 3u8) & 7,
                old(mmu).read_spec(old(self).reg.pc),
            ),
            op == 0x18 ==> r == 12 && *final(mmu) == *old(mmu) && final(self).reg.pc == offset_spec(
                inc16_spec(old(self).reg.pc),
                old(mmu).read_spec(old(self).reg.pc),
            ),
    {
        let y = (op >> 3) & 7;
        let z = op & 7;
        let p = y >> 1;
        assert(op >> 3 & 7 < 8 && op & 7 < 8) by (bit_vector);
        assert(op == 0x18 ==> (op >> 3) & 7 == 3 && op & 7 == 0) by (bit_vector);
        if z == 0 {
            if y == 0 {
                4
            } else if y == 1 {
                let a = self.fetch16(mmu);
                let sp = self.reg.sp;
                mmu.write(a, (sp % 256) as u8);
                mmu.write(inc16(a), (sp / 256) as u8);
                20
            } else if y == 2 {
                self.fetch8(mmu);
                self.stopped = true;
                4
            } else {
                let d = self.fetch8(mmu);
                if y == 3 || self.cond(y - 4) {
                    self.reg.pc = Self::offset(self.reg.pc, d);
                    12
                } else {
                    8
                }
            }
        } else if z == 1 {
            if y % 2 == 0 {
                let v = self.fetch16(mmu);
                self.set_rr(p, v);
                12
            } else {
                let hl = self.reg.hl();
                let v = self.get_rr(p);
                let r = add16(hl, v);
                let h = (hl & 0xfff) as u32 + (v & 0xfff) as u32 > 0xfff;
                let c = hl as u32 + v as u32 > 0xffff;
                self.reg.f = make_flags(self.reg.f & FLAG_Z != 0, false, h, c);
                self.reg.set_hl(r);
                8
            }
        } else if z == 2 {
            let addr = if p == 0 {
                self.reg.bc()
            } else if p == 1 {
                self.reg.de()
            } else {
                self.reg.hl()
            };
            if y % 2 == 0 {
                mmu.write(addr, self.reg.a);
            } else {
                self.reg.a = mmu.read(addr);
            }
            if p == 2 {
                self.reg.set_hl(inc16(addr));
            } else if p == 3 {
                self.reg.set_hl(dec16(addr));
            }
            8
        } else if z == 3 {
            let v = self.get_rr(p);
            let n = if y % 2 == 0 { inc16(v) } else { dec16(v) };
            self.set_rr(p, n);
            8
        } else if z == 4 || z == 5 {
            let v = self.get_r(mmu, y);
            let (r, f) = if z == 4 { inc8(v, self.reg.f) } else { dec8(v, self.reg.f) };
            self.reg.f = f;
            self.set_r(mmu, y, r);
            if y == 6 { 12 } else { 4 }
        } else if z == 6 {
            let v = self.fetch8(mmu);
            self.set_r(mmu, y, v);
            if y == 6 { 12 } else { 8 }
        } else {
            if y < 4 {
                let (r, f) = shift(y, self.reg.a, self.reg.f);
                self.reg.a = r;
                self.reg.f = f & FLAG_C;
            } else if y == 4 {
                let (r, f) = daa(self.reg.a, self.reg.f);
                self.reg.a = r;
                self.reg.f = f;
            } else if y == 5 {
                self.reg.a = !self.reg.a;
                self.reg.f = make_flags(self.reg.f & FLAG_Z != 0, true, true, self.reg.f & FLAG_C != 0);
            } else if y == 6 {
                self.reg.f = make_flags(self.reg.f & FLAG_Z != 0, false, false, true);
            } else {
                self.reg.f = make_flags(self.reg.f & FLAG_Z != 0, false, false, self.reg.f & FLAG_C == 0);
            }
            4
        }
    }

    /// Opcodes 0x40 ..= 0xbf: register loads, HALT, and arithmetic on `A`.
    fn exec_block12<C: Cartridge, V: VideoOutput, D: Audio>(&mut self, mmu: &mut Mmu<C, V, D>, op: u8) -> (r: u64)
        requires
            old(mmu).wf(),
            0x40 <= op < 0xc0,
        ensures
            final(mmu).wf(),
            4 <= r <= 24,
            crate::mmu::video_steady(*old(mmu), *final(mmu)),
            is_reg_op(op) ==> final(self).reg == reg_op_spec(old(self).reg, op) && r == 4
                && *final(mmu) == *old(mmu),
            op == 0x76 ==> final(self).halted && r == 4 && final(self).reg == old(self).reg,
    {
        let y = (op >> 3) & 7;
        let z = op & 7;
        assert(op >> 3 & 7 < 8 && op & 7 < 8) by (bit_vector);
        if op == 0x76 {
            self.halted = true;
            4
        } else if op < 0x80 {
            let v = self.get_r(mmu, z);
            self.set_r(mmu, y, v);
            if y == 6 || z == 6 { 8 } else { 4 }
        } else {
            let v = self.get_r(mmu, z);
            let (r, f) = alu(y, self.reg.a, v, self.reg.f);
            self.reg.a = r;
            self.reg.f = f;
            if z == 6 { 8 } else { 4 }
        }
    }

    /// Extended opcodes after the 0xcb prefix.
    fn exec_cb<C: Cartridge, V: VideoOutput, D: Audio>(&mut self, mmu: &mut Mmu<C, V, D>) -> (r: u64)
        requires
            old(mmu).wf(),
        ensures
            final(mmu).wf(),
            4 <= r <= 24,
            crate::mmu::video_steady(*old(mmu), *final(mmu)),
    {
        let op = self.fetch8(mmu);
        let x = op >> 6;
        let y = (op >> 3) & 7;
        let z = op & 7;
        assert(op >> 3 & 7 < 8 && op & 7 < 8) by (bit_vector);
        let v = self.get_r(mmu, z);
        if x == 0 {
            let (r, f) = shift(y, v, self.reg.f);
            self.reg.f = f;
            self.set_r(mmu, z, r);
        } else if x == 1 {
            let set = (v >> y) & 1 != 0;
            self.reg.f = make_flags(!set, false, true, self.reg.f & FLAG_C != 0);
            return if z == 6 { 12 } else { 8 };
        } else if x == 2 {
            self.set_r(mmu, z, v & !(1u8 << y));
        } else {
            self.set_r(mmu, z, v | (1u8 << y));
        }
        if z == 6 { 16 } else { 8 }
    }

    /// Opcodes 0xc0 ..= 0xff.
    fn exec_block3<C: Cartridge, V: VideoOutput, D: Audio>(&mut self, mmu: &mut Mmu<C, V, D>, op: u8) -> (r: u64)
        requires
            old(mmu).wf(),
            0xc0 <= op,
        ensures
            final(mmu).wf(),
            4 <= r <= 24,
            crate::mmu::video_steady(*old(mmu), *final(mmu)),
            op == 0xc3 ==> r == 16 && final(self).reg.pc == pair(
                old(mmu).read_spec(inc16_spec(old(self).reg.pc)),
                old(mmu).read_spec(old(self).reg.pc),
            ),
            op == 0xf3 ==> r == 4 && !final(self).ime && final(self).reg == old(self).reg,
            op == 0xfb ==> r == 4 && final(self).ime && final(self).reg == old(self).reg,
    {
        let y = (op >> 3) & 7;
        let z = op & 7;
        let p = y >> 1;
        assert(op >> 3 & 7 < 8 && op & 7 < 8) by (bit_vector);
        if op == 0xcb {
            self.exec_cb(mmu)
        } else if op == 0xc9 || op == 0xd9 {
            self.reg.pc = self.pop16(mmu);
            if op == 0xd9 {
                self.ime = true;
            }
            16
        } else if op == 0xc3 {
            self.reg.pc = self.fetch16(mmu);
            16
        } else if op == 0xcd {
            let a = self.fetch16(mmu);
            let pc = self.reg.pc;
            self.push16(mmu, pc);
            self.reg.pc = a;
            24
        } else if op == 0xe9 {
            self.reg.pc = self.reg.hl();
            4
        } else if op == 0xe0 || op == 0xf0 {
            let n = self.fetch8(mmu);
            let a = 0xff00u16 + n as u16;
            if op == 0xe0 {
                mmu.write(a, self.reg.a);
            } else {
                self.reg.a = mmu.read(a);
            }
            12
        } else if op == 0xe2 || op == 0xf2 {
            let a = 0xff00u16 + self.reg.c as u16;
            if op == 0xe2 {
                mmu.write(a, self.reg.a);
            } else {
                self.reg.a = mmu.read(a);
            }
            8
        } else if op == 0xea || op == 0xfa {
            let a = self.fetch16(mmu);
            if op == 0xea {
                mmu.write(a, self.reg.a);
            } else {
                self.reg.a = mmu.read(a);
            }
            16
        } else if op == 0xe8 {
            self.reg.sp = self.sp_plus(mmu);
            16
        } else if op == 0xf8 {
            let v = self.sp_plus(mmu);
            self.reg.set_hl(v);
            12
        } else if op == 0xf9 {
            self.reg.sp = self.reg.hl();
            8
        } else if op == 0xf3 {
            self.ime = false;
            4
        } else if op == 0xfb {
            self.ime = true;
            4
        } else if z == 0 && y < 4 {
            if self.cond(y) {
                self.reg.pc = self.pop16(mmu);
                20
            } else {
                8
            }
        } else if z == 1 && y % 2 == 0 {
            let v = self.pop16(mmu);
            if p == 3 {
                self.reg.set_af(v);
            } else {
                self.set_rr(p, v);
            }
            12
        } else if z == 2 && y < 4 {
            let a = self.fetch16(mmu);
            if self.cond(y) {
                self.reg.pc = a;
                16
            } else {
                12
            }
        } else if z == 4 && y < 4 {
            let a = self.fetch16(mmu);
            if self.cond(y) {
                let pc = self.reg.pc;
                self.push16(mmu, pc);
                self.reg.pc = a;
                24
            } else {
                12
            }
        } else if z == 5 && y % 2 == 0 {
            let v = if p == 3 { self.reg.af() } else { self.get_rr(p) };
            self.push16(mmu, v);
            16
        } else if z == 6 {
            let n = self.fetch8(mmu);
            let (r, f) = alu(y, self.reg.a, n, self.reg.f);
            self.reg.a = r;
            self.reg.f = f;
            8
        } else if z == 7 {
            let pc = self.reg.pc;
            self.push16(mmu, pc);
            self.reg.pc = y as u16 * 8;
            16
        } else {
            self.locked = true;
            4
        }
    }

    /// Executes one instruction, or services the highest-priority pending
    /// interrupt, or idles while halted or stopped. Returns the clock cycles used.
    pub fn step<C: Cartridge, V: VideoOutput, D: Audio>(&mut self, mmu: &mut Mmu<C, V, D>) -> (r: u64)
        requires
            old(mmu).wf(),
        ensures
            final(mmu).wf(),
            4 <= r <= 24,
            final(self).cycles@ == old(self).cycles@ + r,
            final(self).steps@ == old(self).steps@ + 1,
            final(self).last@ == r,
            final(self).trace@ == old(self).trace@.push(
                if services(*old(self), *old(mmu)) {
                    Some(priority_of(old(mmu).ints.active_spec())->Some_0)
                } else {
                    None
                },
            ),
            final(self).serviced@ == if services(*old(self), *old(mmu)) {
                old(self).serviced@.push(priority_of(old(mmu).ints.active_spec())->Some_0)
            } else {
                old(self).serviced@
            },
            crate::mmu::video_steady(*old(mmu), *final(mmu)),
            executes(*old(self), *old(mmu)) && is_reg_op(old(mmu).read_spec(old(self).reg.pc)) ==> {
                &&& r == 4
                &&& final(self).reg == reg_op_spec(
                    Registers { pc: inc16_spec(old(self).reg.pc), ..old(self).reg },
                    old(mmu).read_spec(old(self).reg.pc),
                )
                &&& *final(mmu) == *old(mmu)
            },
            executes(*old(self), *old(mmu)) ==> {
                let pc = old(self).reg.pc;
                let op = old(mmu).read_spec(pc);
                &&& op == 0x76 ==> final(self).halted && r == 4 && final(self).reg.pc == inc16_spec(pc)
                &&& op == 0xc3 ==> r == 16 && final(self).reg.pc == pair(
                    old(mmu).read_spec(inc16_spec(inc16_spec(pc))),
                    old(mmu).read_spec(inc16_spec(pc)),
                )
                &&& op == 0xf3 ==> r == 4 && !final(self).ime && final(self).reg.pc == inc16_spec(pc)
                &&& op == 0xfb ==> r == 4 && final(self).ime && final(self).reg.pc == inc16_spec(pc)
                &&& is_load_imm(op) ==> r == 8 && *final(mmu) == *old(mmu) && final(self).reg
                    == set_reg_spec(
                    Registers { pc: inc16_spec(inc16_spec(pc)), ..old(self).reg },
                    (op >> 3u8) & 7,
                    old(mmu).read_spec(inc16_spec(pc)),
                )
                &&& op == 0x18 ==> r == 12 && final(self).reg.pc == offset_spec(
                    inc16_spec(inc16_spec(pc)),
                    old(mmu).read_spec(inc16_spec(pc)),
                )
            },
            !old(self).locked && old(self).halted && !old(self).ime && !old(self).stopped
                && old(mmu).ints.active_spec() != 0 ==> executes(*old(self), *old(mmu)),
            old(self).locked ==> r == 4 && *final(self) == (Cpu { cycles: final(self).cycles, steps: final(self).steps, serviced: final(self).serviced, last: final(self).last, trace: final(self).trace, ..*old(self) }) && *final(mmu) == *old(mmu),
            !old(self).locked && old(self).halted && old(mmu).ints.active_spec() == 0 ==> r == 4
                && *final(self) == (Cpu { cycles: final(self).cycles, steps: final(self).steps, serviced: final(self).serviced, last: final(self).last, trace: final(self).trace, ..*old(self) }) && *final(mmu) == *old(mmu),
            services(*old(self), *old(mmu)) ==> {
                let i = priority_of(old(mmu).ints.active_spec())->Some_0;
                &&& r == 20
                &&& final(self).reg.pc == vector_of(i)
                &&& !final(self).ime
                &&& !final(self).halted
                &&& final(mmu).ints.flags & (1u8 << i) == 0
                &&& final(self).reg.sp == dec16_spec(dec16_spec(old(self).reg.sp))
                &&& crate::mmu::ram_address(dec16_spec(old(self).reg.sp)) && crate::mmu::ram_address(dec16_spec(dec16_spec(old(self).reg.sp))) ==> {
                    &&& final(mmu).read_spec(dec16_spec(old(self).reg.sp)) == (old(self).reg.pc / 256) as u8
                    &&& final(mmu).read_spec(dec16_spec(dec16_spec(old(self).reg.sp))) == (old(self).reg.pc
                        % 256) as u8
                    &&& final(mmu).ints.flags == old(mmu).ints.flags & !(1u8 << i)
                    &&& final(mmu).ints.enable == old(mmu).ints.enable
                }
            },
    {
        let ghost c0 = self.cycles@;
        let ghost s0 = self.steps@;
        let ghost l0 = self.serviced@;
        let ghost t0 = self.trace@;
        let ghost sv = services(*self, *mmu);
        let ghost pr = priority_of(mmu.ints.active_spec())->Some_0;
        let r = self.step_inner(mmu);
        proof {
            self.serviced@ = if sv { l0.push(pr) } else { l0 };
            self.cycles@ = c0 + r as nat;
            self.steps@ = s0 + 1;
            self.last@ = r as nat;
            self.trace@ = t0.push(if sv { Some(pr) } else { None });
        }
        r
    }

    fn step_inner<C: Cartridge, V: VideoOutput, D: Audio>(&mut self, mmu: &mut Mmu<C, V, D>) -> (r: u64)
        requires
            old(mmu).wf(),
        ensures
            final(mmu).wf(),
            4 <= r <= 24,
            crate::mmu::video_steady(*old(mmu), *final(mmu)),
            executes(*old(self), *old(mmu)) && is_reg_op(old(mmu).read_spec(old(self).reg.pc)) ==> {
                &&& r == 4
                &&& final(self).reg == reg_op_spec(
                    Registers { pc: inc16_spec(old(self).reg.pc), ..old(self).reg },
                    old(mmu).read_spec(old(self).reg.pc),
                )
                &&& *final(mmu) == *old(mmu)
            },
            executes(*old(self), *old(mmu)) ==> {
                let pc = old(self).reg.pc;
                let op = old(mmu).read_spec(pc);
                &&& op == 0x76 ==> final(self).halted && r == 4 && final(self).reg.pc == inc16_spec(pc)
                &&& op == 0xc3 ==> r == 16 && final(self).reg.pc == pair(
                    old(mmu).read_spec(inc16_spec(inc16_spec(pc))),
                    old(mmu).read_spec(inc16_spec(pc)),
                )
                &&& op == 0xf3 ==> r == 4 && !final(self).ime && final(self).reg.pc == inc16_spec(pc)
                &&& op == 0xfb ==> r == 4 && final(self).ime && final(self).reg.pc == inc16_spec(pc)
                &&& is_load_imm(op) ==> r == 8 && *final(mmu) == *old(mmu) && final(self).reg
                    == set_reg_spec(
                    Registers { pc: inc16_spec(inc16_spec(pc)), ..old(self).reg },
                    (op >> 3u8) & 7,
                    old(mmu).read_spec(inc16_spec(pc)),
                )
                &&& op == 0x18 ==> r == 12 && final(self).reg.pc == offset_spec(
                    inc16_spec(inc16_spec(pc)),
                    old(mmu).read_spec(inc16_spec(pc)),
                )
            },
            !old(self).locked && old(self).halted && !old(self).ime && !old(self).stopped
                && old(mmu).ints.active_spec() != 0 ==> executes(*old(self), *old(mmu)),
            old(self).locked ==> r == 4 && *final(self) == *old(self) && *final(mmu) == *old(mmu),
            !old(self).locked && old(self).halted && old(mmu).ints.active_spec() == 0 ==> r == 4
                && *final(self) == *old(self) && *final(mmu) == *old(mmu),
            services(*old(self), *old(mmu)) ==> {
                let i = priority_of(old(mmu).ints.active_spec())->Some_0;
                &&& r == 20
                &&& final(self).reg.pc == vector_of(i)
                &&& !final(self).ime
                &&& !final(self).halted
                &&& final(mmu).ints.flags & (1u8 << i) == 0
                &&& final(self).reg.sp == dec16_spec(dec16_spec(old(self).reg.sp))
                &&& crate::mmu::ram_address(dec16_spec(old(self).reg.sp)) && crate::mmu::ram_address(dec16_spec(dec16_spec(old(self).reg.sp))) ==> {
                    &&& final(mmu).read_spec(dec16_spec(old(self).reg.sp)) == (old(self).reg.pc / 256) as u8
                    &&& final(mmu).read_spec(dec16_spec(dec16_spec(old(self).reg.sp))) == (old(self).reg.pc
                        % 256) as u8
                    &&& final(mmu).ints.flags == old(mmu).ints.flags & !(1u8 << i)
                    &&& final(mmu).ints.enable == old(mmu).ints.enable
                }
            },
    {
        if self.locked {
            return 4;
        }
        if self.halted {
            if mmu.ints.any_active() {
                self.halted = false;
            } else {
                return 4;
            }
        }
        if self.stopped {
            if mmu.ints.flags & crate::interrupts::JOYPAD != 0 {
                self.stopped = false;
            } else {
                return 4;
            }
        }
        if self.ime {
            match mmu.ints.highest() {
                Some(i) => {
                    self.ime = false;
                    let pc = self.reg.pc;
                    self.push16(mmu, pc);
                    let f = mmu.ints.flags;
                    mmu.ints.acknowledge(i);
                    proof {
                        assert(i < 5 ==> (f & !(1u8 << i)) & (1u8 << i) == 0) by (bit_vector);
                    }
                    self.reg.pc = 0x40 + 8 * i as u16;
                    return 20;
                },
                None => {},
            }
        }
        let op = self.fetch8(mmu);
        if op < 0x40 {
            self.exec_block0(mmu, op)
        } else if op < 0xc0 {
            self.exec_block12(mmu, op)
        } else {
            self.exec_block3(mmu, op)
        }
    }
}

} // verus!
