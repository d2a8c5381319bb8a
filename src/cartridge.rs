//! Cartridge images and their memory-bank controllers.
use vstd::prelude::*;

verus! {

/// Size of one switchable ROM bank.
pub const ROM_BANK_SIZE: usize = 0x4000;

/// Size of one switchable external RAM bank.
pub const RAM_BANK_SIZE: usize = 0x2000;

/// What a cartridge slot offers to the memory dispatcher.
pub trait Cartridge: Sized {
    /// Internal consistency of the cartridge state.
    spec fn wf(&self) -> bool;

    /// The byte that a read of `addr` yields.
    spec fn read_spec(&self, addr: u16) -> u8;

    /// How a write of `value` to `addr` takes the cartridge from `self` to `new`.
    spec fn write_spec(&self, new: &Self, addr: u16, value: u8) -> bool;

    fn read(&self, addr: u16) -> (r: u8)
        requires
            self.wf(),
        ensures
            r == self.read_spec(addr),
    ;

    fn write(&mut self, addr: u16, value: u8)
        requires
            old(self).wf(),
        ensures
            final(self).wf(),
            old(self).write_spec(final(self), addr, value),
    ;
}

/// An empty slot: every read sees an undriven bus and writes go nowhere.
impl Cartridge for () {
    open spec fn wf(&self) -> bool {
        true
    }

    open spec fn read_spec(&self, addr: u16) -> u8 {
        0xff
    }

    open spec fn write_spec(&self, new: &Self, addr: u16, value: u8) -> bool {
        true
    }

    fn read(&self, addr: u16) -> (r: u8) {
        0xff
    }

    fn write(&mut self, addr: u16, value: u8) {
    }
}

/// The memory-bank controller that the image header declares.
#[derive(Clone, Copy, Debug, PartialEq, Eq, Structural)]
pub enum MapperKind {
    /// Fixed 32 KiB mapping, no control registers.
    RomOnly,
    /// Banked mapper with ROM/RAM bank selection and a banking-mode flag.
    Mbc1,
    /// Banked mapper with a latched real-time-clock register set.
    Mbc3,
}

/// Why an image cannot be mounted.
#[derive(Clone, Copy, Debug, PartialEq, Eq, Structural)]
pub enum CartridgeError {
    /// The image is too short to hold a header.
    TooShort,
    /// The header declares a mapper that is not supported.
    UnknownMapper(u8),
    /// The header's ROM size code is out of range.
    BadRomSize(u8),
    /// The header's RAM size code is out of range.
    BadRamSize(u8),
    /// The image length differs from the size that the header declares.
    SizeMismatch,
}

pub open spec fn in_range(a: u16, lo: int, hi: int) -> bool {
    lo <= a as int && a as int <= hi
}

/// Sum of the header bytes at offsets `0x134 ..= 0x134 + n - 1`.
pub open spec fn header_sum(data: Seq<u8>, n: nat) -> int
    decreases n,
{
    if n == 0 {
        0
    } else {
        header_sum(data, (n - 1) as nat) + data[0x134 + n - 1] as int
    }
}

/// Number of header bytes covered by the checksum (`0x134 ..= 0x14d`).
pub open spec fn header_len() -> nat {
    0x1a
}

/// The header checksum of an image: `0x19` plus every header byte, modulo 256.
pub open spec fn checksum_of(data: Seq<u8>) -> int {
    (0x19 + header_sum(data, header_len())) % 256
}

/// Mapper declared by a cartridge-type byte.
pub open spec fn mapper_of(code: u8) -> Option<MapperKind> {
    if code == 0x00 {
        Some(MapperKind::RomOnly)
    } else if 0x01 <= code <= 0x03 {
        Some(MapperKind::Mbc1)
    } else if 0x0f <= code <= 0x13 {
        Some(MapperKind::Mbc3)
    } else {
        None
    }
}

/// Number of RAM banks declared by a RAM size code.
pub open spec fn ram_banks_of(code: u8) -> Option<nat> {
    if code == 0 {
        Some(0)
    } else if code == 1 || code == 2 {
        Some(1)
    } else if code == 3 {
        Some(4)
    } else if code == 4 {
        Some(16)
    } else if code == 5 {
        Some(8)
    } else {
        None
    }
}

/// Number of ROM banks declared by a ROM size code (`code <= 8`).
pub open spec fn rom_banks_of(code: u8) -> nat
    decreases code,
{
    if code == 0 {
        2
    } else {
        2 * rom_banks_of((code - 1) as u8)
    }
}

/// A mounted cartridge image together with its mapper registers.
pub struct Rom {
    pub data: Vec<u8>,
    pub ram: Vec<u8>,
    pub kind: MapperKind,
    pub rom_banks: usize,
    pub ram_banks: usize,
    /// Selected switchable ROM bank (before masking by the bank count).
    pub rom_bank: usize,
    /// Selected RAM bank, or the upper bank bits in banking mode 1.
    pub ram_bank: u8,
    pub ram_enabled: bool,
    /// Banking mode flag of the simple banked mapper.
    pub banking_mode: bool,
    /// Live clock registers (seconds, minutes, hours, day low, day high).
    pub rtc: [u8; 5],
    /// Clock registers as last latched.
    pub rtc_latched: [u8; 5],
    /// Last value written to the latch window.
    pub latch_last: u8,
}

impl Rom {
    pub open spec fn wf_rom(&self) -> bool {
        &&& 2 <= self.rom_banks <= 512
        &&& self.data@.len() == self.rom_banks * ROM_BANK_SIZE
        &&& self.ram_banks <= 16
        &&& self.ram@.len() == self.ram_banks * RAM_BANK_SIZE
        &&& 1 <= self.rom_bank <= 0x7f
    }

    /// Bank mapped at `0x4000 ..= 0x7fff`, masked to the physical bank count.
    pub open spec fn high_bank(&self) -> int {
        let b = if self.kind is Mbc1 {
            (self.ram_bank as int % 4) * 32 + self.rom_bank as int % 32
        } else if self.kind is Mbc3 {
            self.rom_bank as int
        } else {
            1
        };
        b % (self.rom_banks as int)
    }

    /// Bank mapped at `0x0000 ..= 0x3fff`.
    pub open spec fn low_bank(&self) -> int {
        if self.kind is Mbc1 && self.banking_mode {
            ((self.ram_bank as int % 4) * 32) % (self.rom_banks as int)
        } else {
            0
        }
    }

    /// RAM bank mapped at `0xa000 ..= 0xbfff` when RAM is selected.
    pub open spec fn ram_bank_index(&self) -> int {
        let b = if self.kind is Mbc1 {
            if self.banking_mode { self.ram_bank as int % 4 } else { 0 }
        } else {
            self.ram_bank as int % 4
        };
        if self.ram_banks == 0 { 0 } else { b % (self.ram_banks as int) }
    }

    /// The clock register selected in the RAM window, if any.
    pub open spec fn rtc_selected(&self) -> bool {
        self.kind is Mbc3 && 0x08 <= self.ram_bank <= 0x0c
    }

    pub open spec fn read_rom_spec(&self, addr: u16) -> u8 {
        if addr < 0x4000 {
            self.data@[self.low_bank() * 0x4000 + addr as int]
        } else if addr < 0x8000 {
            self.data@[self.high_bank() * 0x4000 + (addr as int - 0x4000)]
        } else if in_range(addr, 0xa000, 0xbfff) {
            if self.kind is RomOnly || !self.ram_enabled {
                0xff
            } else if self.rtc_selected() {
                self.rtc_latched[self.ram_bank as int - 8]
            } else if self.ram_banks == 0 || self.ram_bank >= 4 {
                0xff
            } else {
                self.ram@[self.ram_bank_index() * 0x2000 + (addr as int - 0xa000)]
            }
        } else {
            0xff
        }
    }

    /// How a write of `v` to `addr` changes the mapper (`new` is the state after).
    pub open spec fn write_post(&self, new: Rom, addr: u16, v: u8) -> bool {
        &&& new.data@ == self.data@
        &&& new.kind == self.kind
        &&& new.rom_banks == self.rom_banks
        &&& new.ram_banks == self.ram_banks
        &&& new.latch_last == if self.kind is Mbc3 && in_range(addr, 0x6000, 0x7fff) {
            v
        } else {
            self.latch_last
        }
        &&& !(self.kind is Mbc1 && in_range(addr, 0x6000, 0x7fff)) ==> new.banking_mode
            == self.banking_mode
        &&& !(self.kind is Mbc3 && in_range(addr, 0x6000, 0x7fff)) ==> new.rtc_latched
            == self.rtc_latched
        &&& if self.kind is RomOnly {
            new == *self
        } else if addr < 0x2000 {
            &&& new.ram_enabled == if self.kind is Mbc1 { v & 0x0f == 0x0a } else { v == 0x0a }
            &&& new.rom_bank == self.rom_bank && new.ram_bank == self.ram_bank
            &&& new.ram@ == self.ram@ && new.rtc == self.rtc && new.rtc_latched == self.rtc_latched
        } else if addr < 0x4000 {
            &&& new.rom_bank == bank_select(self.kind, v)
            &&& new.ram_enabled == self.ram_enabled && new.ram_bank == self.ram_bank
            &&& new.banking_mode == self.banking_mode
            &&& new.ram@ == self.ram@ && new.rtc == self.rtc && new.rtc_latched == self.rtc_latched
        } else if addr < 0x6000 {
            &&& new.ram_bank == v
            &&& new.rom_bank == self.rom_bank && new.ram_enabled == self.ram_enabled
            &&& new.banking_mode == self.banking_mode
            &&& new.ram@ == self.ram@ && new.rtc == self.rtc && new.rtc_latched == self.rtc_latched
        } else if addr < 0x8000 {
            &&& new.rom_bank == self.rom_bank && new.ram_bank == self.ram_bank
            &&& new.ram_enabled == self.ram_enabled && new.ram@ == self.ram@
            &&& new.rtc == self.rtc
            &&& self.kind is Mbc1 ==> new.banking_mode == (v & 1 == 1)
            &&& self.kind is Mbc3 ==> new.rtc_latched == if self.latch_last == 0 && v == 1 {
                self.rtc
            } else {
                self.rtc_latched
            }
        } else {
            &&& new.rom_bank == self.rom_bank && new.ram_bank == self.ram_bank
            &&& new.ram_enabled == self.ram_enabled && new.banking_mode == self.banking_mode
            &&& new.rtc_latched == self.rtc_latched
            &&& if in_range(addr, 0xa000, 0xbfff) && self.ram_enabled && self.rtc_selected() {
                &&& new.ram@ == self.ram@
                &&& forall|j: int|
                    0 <= j < 5 ==> #[trigger] new.rtc[j] == if j == self.ram_bank - 8 {
                        v
                    } else {
                        self.rtc[j]
                    }
            } else if in_range(addr, 0xa000, 0xbfff) && self.ram_enabled && self.ram_banks > 0
                && self.ram_bank < 4 {
                &&& new.rtc == self.rtc
                &&& new.ram@ == self.ram@.update(
                    self.ram_bank_index() * 0x2000 + (addr - 0xa000),
                    v,
                )
            } else {
                new.ram@ == self.ram@ && new.rtc == self.rtc
            }
        }
    }

    /// Mounts an image, picking the mapper from its header.
    pub fn new(image: &[u8]) -> (r: Result<Rom, CartridgeError>)
        ensures
            image@.len() < 0x150 ==> r == Err::<Rom, CartridgeError>(CartridgeError::TooShort),
            image@.len() >= 0x150 ==> {
                let t = image@[0x147];
                let rs = image@[0x148];
                let ms = image@[0x149];
                if mapper_of(t) is None {
                    r == Err::<Rom, CartridgeError>(CartridgeError::UnknownMapper(t))
                } else if rs > 8 {
                    r == Err::<Rom, CartridgeError>(CartridgeError::BadRomSize(rs))
                } else if ram_banks_of(ms) is None {
                    r == Err::<Rom, CartridgeError>(CartridgeError::BadRamSize(ms))
                } else if image@.len() != rom_banks_of(rs) * 0x4000 {
                    r == Err::<Rom, CartridgeError>(CartridgeError::SizeMismatch)
                } else {
                    &&& r is Ok
                    &&& r->Ok_0.wf_rom()
                    &&& r->Ok_0.data@ == image@
                    &&& r->Ok_0.kind == mapper_of(t)->Some_0
                    &&& r->Ok_0.rom_banks == rom_banks_of(rs)
                    &&& r->Ok_0.ram_banks == ram_banks_of(ms)->Some_0
                    &&& r->Ok_0.rom_bank == 1 && r->Ok_0.ram_bank == 0
                    &&& !r->Ok_0.ram_enabled && !r->Ok_0.banking_mode
                }
            },
    {
        if image.len() < 0x150 {
            return Err(CartridgeError::TooShort);
        }
        let t = image[0x147];
        let rs = image[0x148];
        let ms = image[0x149];
        let kind = if t == 0x00 {
            MapperKind::RomOnly
        } else if 0x01 <= t && t <= 0x03 {
            MapperKind::Mbc1
        } else if 0x0f <= t && t <= 0x13 {
            MapperKind::Mbc3
        } else {
            return Err(CartridgeError::UnknownMapper(t));
        };
        if rs > 8 {
            return Err(CartridgeError::BadRomSize(rs));
        }
        let ram_banks: usize = if ms == 0 {
            0
        } else if ms == 1 || ms == 2 {
            1
        } else if ms == 3 {
            4
        } else if ms == 4 {
            16
        } else if ms == 5 {
            8
        } else {
            return Err(CartridgeError::BadRamSize(ms));
        };
        let rom_banks: usize = if rs == 0 {
            2
        } else if rs == 1 {
            4
        } else if rs == 2 {
            8
        } else if rs == 3 {
            16
        } else if rs == 4 {
            32
        } else if rs == 5 {
            64
        } else if rs == 6 {
            128
        } else if rs == 7 {
            256
        } else {
            512
        };
        proof {
            reveal_with_fuel(rom_banks_of, 9);
        }
        assert(rom_banks == rom_banks_of(rs));
        if image.len() != rom_banks * ROM_BANK_SIZE {
            return Err(CartridgeError::SizeMismatch);
        }
        let data = copy_bytes(image);
        let ram = vec![0u8; ram_banks * RAM_BANK_SIZE];
        Ok(Rom {
            data,
            ram,
            kind,
            rom_banks,
            ram_banks,
            rom_bank: 1,
            ram_bank: 0,
            ram_enabled: false,
            banking_mode: false,
            rtc: [0u8; 5],
            rtc_latched: [0u8; 5],
            latch_last: 0xff,
        })
    }
    fn high_bank_exec(&self) -> (r: usize)
        requires
            self.wf_rom(),
        ensures
            r == self.high_bank(),
            r < self.rom_banks,
    {
        let b: usize = match self.kind {
            MapperKind::Mbc1 => ((self.ram_bank % 4) as usize) * 32 + self.rom_bank % 32,
            MapperKind::Mbc3 => self.rom_bank,
            MapperKind::RomOnly => 1,
        };
        b % self.rom_banks
    }

    fn low_bank_exec(&self) -> (r: usize)
        requires
            self.wf_rom(),
        ensures
            r == self.low_bank(),
            r < self.rom_banks,
    {
        if self.kind == MapperKind::Mbc1 && self.banking_mode {
            (((self.ram_bank % 4) as usize) * 32) % self.rom_banks
        } else {
            0
        }
    }

    fn ram_bank_exec(&self) -> (r: usize)
        requires
            self.wf_rom(),
        ensures
            r == self.ram_bank_index(),
            self.ram_banks > 0 ==> r < self.ram_banks,
    {
        let b: usize = if self.kind == MapperKind::Mbc1 {
            if self.banking_mode { (self.ram_bank % 4) as usize } else { 0 }
        } else {
            (self.ram_bank % 4) as usize
        };
        if self.ram_banks == 0 { 0 } else { b % self.ram_banks }
    }

    /// Reads a byte from the ROM windows or the external RAM window.
    pub fn read_rom(&self, addr: u16) -> (r: u8)
        requires
            self.wf_rom(),
        ensures
            r == self.read_rom_spec(addr),
    {
        if addr < 0x4000 {
            let bank = self.low_bank_exec();
            proof {
                assert(bank * 0x4000 + addr < self.rom_banks * 0x4000) by (nonlinear_arith)
                    requires bank < self.rom_banks, addr < 0x4000;
            }
            self.data[bank * ROM_BANK_SIZE + addr as usize]
        } else if addr < 0x8000 {
            let bank = self.high_bank_exec();
            proof {
                assert(bank * 0x4000 + (addr - 0x4000) < self.rom_banks * 0x4000) by (nonlinear_arith)
                    requires bank < self.rom_banks, 0x4000 <= addr < 0x8000;
            }
            self.data[bank * ROM_BANK_SIZE + (addr - 0x4000) as usize]
        } else if 0xa000 <= addr && addr <= 0xbfff {
            if self.kind == MapperKind::RomOnly || !self.ram_enabled {
                0xff
            } else if self.kind == MapperKind::Mbc3 && 0x08 <= self.ram_bank && self.ram_bank <= 0x0c {
                self.rtc_latched[(self.ram_bank - 8) as usize]
            } else if self.ram_banks == 0 || self.ram_bank >= 4 {
                0xff
            } else {
                let bank = self.ram_bank_exec();
                proof {
                    assert(bank * 0x2000 + (addr - 0xa000) < self.ram_banks * 0x2000) by (nonlinear_arith)
                        requires bank < self.ram_banks, 0xa000 <= addr <= 0xbfff;
                }
                self.ram[bank * RAM_BANK_SIZE + (addr - 0xa000) as usize]
            }
        } else {
            0xff
        }
    }

    /// Writes a mapper control register or a byte of external RAM.
    pub fn write_rom(&mut self, addr: u16, v: u8)
        requires
            old(self).wf_rom(),
        ensures
            final(self).wf_rom(),
            old(self).write_post(*final(self), addr, v),
    {
        if self.kind == MapperKind::RomOnly {
            return;
        }
        if addr < 0x2000 {
            self.ram_enabled = if self.kind == MapperKind::Mbc1 { v & 0x0f == 0x0a } else { v == 0x0a };
        } else if addr < 0x4000 {
            let b = if self.kind == MapperKind::Mbc1 { v & 0x1f } else { v & 0x7f };
            assert(v & 0x1f <= 0x7f && v & 0x7f <= 0x7f) by (bit_vector);
            self.rom_bank = if b == 0 { 1 } else { b as usize };
        } else if addr < 0x6000 {
            self.ram_bank = v;
        } else if addr < 0x8000 {
            if self.kind == MapperKind::Mbc1 {
                self.banking_mode = v & 1 == 1;
            } else {
                if self.latch_last == 0 && v == 1 {
                    self.rtc_latched = self.rtc;
                }
                self.latch_last = v;
            }
        } else if 0xa000 <= addr && addr <= 0xbfff && self.ram_enabled {
            if self.kind == MapperKind::Mbc3 && 0x08 <= self.ram_bank && self.ram_bank <= 0x0c {
                self.rtc[(self.ram_bank - 8) as usize] = v;
            } else if self.ram_banks > 0 && self.ram_bank < 4 {
                let bank = self.ram_bank_exec();
                proof {
                    assert(bank * 0x2000 + (addr - 0xa000) < self.ram_banks * 0x2000) by (nonlinear_arith)
                        requires bank < self.ram_banks, 0xa000 <= addr <= 0xbfff;
                }
                self.ram.set(bank * RAM_BANK_SIZE + (addr - 0xa000) as usize, v);
            }
        }
    }

    /// Header checksum of the image: `0x19` plus each byte at `0x134 ..= 0x14d`,
    /// modulo 256. A well-formed image has checksum 0.
    pub fn header_checksum(&self) -> (r: u8)
        requires
            self.wf_rom(),
        ensures
            r as int == checksum_of(self.data@),
    {
        let mut sum: u8 = 0x19;
        let mut i: usize = 0;
        while i < 0x1a
            invariant
                i <= 0x1a,
                self.data@.len() >= 0x8000,
                sum as int == (0x19 + header_sum(self.data@, i as nat)) % 256,
            decreases 0x1a - i,
        {
            sum = sum.wrapping_add(self.data[0x134 + i]);
            i = i + 1;
        }
        sum
    }

    /// The header bytes of the image, offsets `0x134 ..= 0x14d`.
    pub fn header_bytes(&self) -> (r: Vec<u8>)
        requires
            self.wf_rom(),
        ensures
            r@ == self.data@.subrange(0x134, 0x14e),
    {
        let mut r: Vec<u8> = Vec::new();
        let mut i: usize = 0x134;
        while i < 0x14e
            invariant
                0x134 <= i <= 0x14e,
                self.data@.len() >= 0x8000,
                r@ == self.data@.subrange(0x134, i as int),
            decreases 0x14e - i,
        {
            r.push(self.data[i]);
            i = i + 1;
            assert(r@ =~= self.data@.subrange(0x134, i as int));
        }
        r
    }

    /// Whether the header checksum of the image holds.
    pub fn has_valid_header(&self) -> (r: bool)
        requires
            self.wf_rom(),
        ensures
            r == (checksum_of(self.data@) == 0),
    {
        self.header_checksum() == 0
    }
}

impl Cartridge for Rom {
    open spec fn wf(&self) -> bool {
        self.wf_rom()
    }

    open spec fn read_spec(&self, addr: u16) -> u8 {
        self.read_rom_spec(addr)
    }

    open spec fn write_spec(&self, new: &Self, addr: u16, value: u8) -> bool {
        self.write_post(*new, addr, value)
    }

    fn read(&self, addr: u16) -> (r: u8) {
        self.read_rom(addr)
    }

    fn write(&mut self, addr: u16, value: u8) {
        self.write_rom(addr, value)
    }
}

/// Selecting a ROM bank and then reading the switchable window yields the image
/// bytes of the selected bank, masked to the number of banks in the image.
pub proof fn lemma_bank_switch(r: Rom, after: Rom, v: u8, addr: u16)
    requires
        r.wf_rom(),
        r.kind is Mbc3 || (r.kind is Mbc1 && r.ram_bank % 4 == 0),
        r.write_post(after, 0x2000, v),
        0x4000 <= addr < 0x8000,
    ensures
        after.read_rom_spec(addr) == r.data@[(bank_select(r.kind, v) % r.rom_banks) * 0x4000
            + (addr - 0x4000)],
{
    assert(v & 0x1f < 32) by (bit_vector);
}

fn copy_bytes(src: &[u8]) -> (r: Vec<u8>)
    ensures
        r@ == src@,
{
    let mut r: Vec<u8> = Vec::with_capacity(src.len());
    let mut i: usize = 0;
    while i < src.len()
        invariant
            i <= src@.len(),
            r@ == src@.subrange(0, i as int),
        decreases src@.len() - i,
    {
        r.push(src[i]);
        i = i + 1;
    }
    assert(r@ =~= src@);
    r
}

/// Bank selected by a write of `v` to the ROM-bank window: the mapper's bank bits,
/// with bank 0 remapped to 1.
pub open spec fn bank_select(kind: MapperKind, v: u8) -> usize {
    let b = if kind is Mbc1 { v & 0x1f } else { v & 0x7f };
    if b == 0 { 1 } else { b as usize }
}

} // verus!
