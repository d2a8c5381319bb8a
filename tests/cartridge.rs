use dmg_lib::cartridge::{Cartridge, CartridgeError, MapperKind, Rom};
use dmg_lib::mmu::Mmu;
use dmg_lib::Mode;

/// A ROM image of `banks` banks with the given cartridge type and RAM code; every
/// byte of a switchable bank holds the bank number, and the header checksum holds.
fn image(kind: u8, rom_code: u8, ram_code: u8, banks: usize) -> Vec<u8> {
    let mut rom = vec![0u8; banks * 0x4000];
    for b in 1..banks {
        for i in 0..0x4000 {
            rom[b * 0x4000 + i] = b as u8;
        }
    }
    for (i, c) in b"TESTCART".iter().enumerate() {
        rom[0x134 + i] = *c;
    }
    rom[0x147] = kind;
    rom[0x148] = rom_code;
    rom[0x149] = ram_code;
    let mut sum = 0x19u8;
    for addr in 0x134..0x14d {
        sum = sum.wrapping_add(rom[addr]);
    }
    rom[0x14d] = 0u8.wrapping_sub(sum);
    rom
}

#[test]
fn checksum() {
    let rom = image(0x00, 0x00, 0x00, 2);
    let mmu: Mmu<Rom, (), ()> = Mmu::with_cartridge_and_video(Rom::new(&rom).unwrap(), Mode::GB, ());

    let mut res = 0x19u8;
    for addr in 0x134..=0x14d {
        res = res.wrapping_add(mmu.read(addr as u16));
    }

    assert_eq!(0, res);
}

#[test]
fn header_checksum_of_valid_and_corrupt_images() {
    let mut data = image(0x00, 0x00, 0x00, 2);
    let rom = Rom::new(&data).unwrap();
    assert_eq!(rom.header_checksum(), 0);
    assert!(rom.has_valid_header());
    data[0x134] = data[0x134].wrapping_add(3);
    let bad = Rom::new(&data).unwrap();
    assert_eq!(bad.header_checksum(), 3);
    assert!(!bad.has_valid_header());
}

#[test]
fn mapper_is_taken_from_header() {
    assert_eq!(Rom::new(&image(0x00, 0, 0, 2)).unwrap().kind, MapperKind::RomOnly);
    assert_eq!(Rom::new(&image(0x01, 1, 0, 4)).unwrap().kind, MapperKind::Mbc1);
    assert_eq!(Rom::new(&image(0x13, 1, 3, 4)).unwrap().kind, MapperKind::Mbc3);
}

#[test]
fn construction_errors() {
    assert_eq!(Rom::new(&[0u8; 0x100]).err(), Some(CartridgeError::TooShort));
    assert_eq!(Rom::new(&image(0x20, 0, 0, 2)).err(), Some(CartridgeError::UnknownMapper(0x20)));
    let mut big = image(0x01, 0, 0, 2);
    big[0x148] = 9;
    assert_eq!(Rom::new(&big).err(), Some(CartridgeError::BadRomSize(9)));
    let mut ram = image(0x01, 0, 0, 2);
    ram[0x149] = 7;
    assert_eq!(Rom::new(&ram).err(), Some(CartridgeError::BadRamSize(7)));
    assert_eq!(Rom::new(&image(0x01, 2, 0, 4)).err(), Some(CartridgeError::SizeMismatch));
}

#[test]
fn rom_only_ignores_writes() {
    let mut rom = Rom::new(&image(0x00, 0, 0, 2)).unwrap();
    assert_eq!(rom.read(0x4000), 1);
    rom.write(0x2000, 0);
    assert_eq!(rom.read(0x4000), 1);
    assert_eq!(rom.read(0xa000), 0xff);
}

#[test]
fn mbc1_bank_switching() {
    let mut rom = Rom::new(&image(0x01, 1, 0, 4)).unwrap();
    assert_eq!(rom.read(0x4000), 1);
    rom.write(0x2000, 2);
    assert_eq!(rom.read(0x4000), 2);
    assert_eq!(rom.read(0x7fff), 2);
    rom.write(0x2000, 0);
    assert_eq!(rom.read(0x4000), 1);
    rom.write(0x2000, 3);
    assert_eq!(rom.read(0x5000), 3);
    rom.write(0x2000, 6);
    assert_eq!(rom.read(0x4000), 2);
    assert_eq!(rom.read(0x0000), 0);
}

#[test]
fn mbc1_ram_enable() {
    let mut rom = Rom::new(&image(0x03, 1, 2, 4)).unwrap();
    rom.write(0xa000, 0x42);
    assert_eq!(rom.read(0xa000), 0xff);
    rom.write(0x0000, 0x0a);
    rom.write(0xa000, 0x42);
    assert_eq!(rom.read(0xa000), 0x42);
    rom.write(0x0000, 0x00);
    assert_eq!(rom.read(0xa000), 0xff);
}

#[test]
fn mbc3_banks_and_clock() {
    let mut rom = Rom::new(&image(0x10, 2, 3, 8)).unwrap();
    rom.write(0x2000, 5);
    assert_eq!(rom.read(0x4000), 5);
    rom.write(0x2000, 9);
    assert_eq!(rom.read(0x4000), 1);
    rom.write(0x0000, 0x1a);
    rom.write(0xa000, 0x11);
    assert_eq!(rom.read(0xa000), 0xff);
    rom.write(0x0000, 0x0a);
    rom.write(0x4000, 0x08);
    rom.write(0xa000, 30);
    assert_eq!(rom.read(0xa000), 0);
    rom.write(0x6000, 0);
    rom.write(0x6000, 1);
    assert_eq!(rom.read(0xa000), 30);
    rom.write(0x4000, 0x01);
    rom.write(0xa000, 0x77);
    assert_eq!(rom.read(0xa000), 0x77);
}

#[test]
fn header_bytes_are_the_image_header() {
    let data = image(0x01, 1, 0, 4);
    let rom = Rom::new(&data).unwrap();
    let h = rom.header_bytes();
    assert_eq!(h.len(), 0x1a);
    assert_eq!(&h[..], &data[0x134..0x14e]);
    assert_eq!(&h[..8], b"TESTCART");
}
