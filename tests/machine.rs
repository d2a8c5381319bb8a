use dmg_lib::cartridge::Rom;
use dmg_lib::cpu::{alu, daa, inc8, shift, Cpu, Registers};
use dmg_lib::interrupts::Interrupts;
use dmg_lib::joypad::{Button, Joypad};
use dmg_lib::mmu::Mmu;
use dmg_lib::ppu::{grayscale, Color, VideoOutput};
use dmg_lib::timer::Timer;
use dmg_lib::{Builder, Dmg, Mode, FRAME_CYCLES};

/// Records every line handed to the display.
struct Recorder {
    lines: Vec<usize>,
    frame: Vec<[Color; 160]>,
}

impl Recorder {
    fn new() -> Recorder {
        Recorder { lines: Vec::new(), frame: vec![[[0u8; 3]; 160]; 144] }
    }
}

impl VideoOutput for Recorder {
    fn render_line(&mut self, line: usize, pixels: &[Color; 160]) {
        self.lines.push(line);
        self.frame[line] = *pixels;
    }
}

/// A 32 KiB image whose program draws nothing and loops forever at 0x0150, after
/// storing a tile and a tile-map entry so that the screen is not blank.
fn program() -> Vec<u8> {
    let mut rom = vec![0u8; 0x8000];
    rom[0x100] = 0x00; // NOP
    rom[0x101] = 0xc3; // JP 0x0150
    rom[0x102] = 0x50;
    rom[0x103] = 0x01;
    let code: [u8; 13] = [
        0x3e, 0xff, // LD A, 0xff
        0xea, 0x10, 0x80, // LD (0x8010), A: tile 1, row 0, low plane
        0xea, 0x11, 0x80, // LD (0x8011), A: high plane
        0x3e, 0x01, // LD A, 1
        0xea, 0x00, 0x98, // LD (0x9800), A: first map entry uses tile 1
    ];
    for (i, b) in code.iter().enumerate() {
        rom[0x150 + i] = *b;
    }
    rom[0x15e] = 0x18; // JR -2
    rom[0x15f] = 0xfe;
    let mut sum = 0x19u8;
    for addr in 0x134..0x14d {
        sum = sum.wrapping_add(rom[addr]);
    }
    rom[0x14d] = 0u8.wrapping_sub(sum);
    rom
}

fn machine(mode: Mode) -> Dmg<Rom, Recorder, ()> {
    let rom = Rom::new(&program()).unwrap();
    Builder::default().with_cartridge(rom).with_video(Recorder::new()).with_mode(mode).skip_boot().build()
}

#[test]
fn boot_skip_registers() {
    let dmg = machine(Mode::GB);
    let mmu = dmg.mmu();
    assert_eq!(mmu.read(0xff07), 0x00);
    assert_eq!(mmu.read(0xff40), 0x91);
    assert_eq!(mmu.read(0xff47), 0xfc);
    assert_eq!(mmu.read(0xff26), 0xf1);
    assert_eq!(mmu.read(0xff24), 0x77);
    assert_eq!(mmu.read(0xff48), 0xff);
    assert_eq!(mmu.read(0xff50), 0x01);
    assert_eq!(mmu.read(0xffff), 0x00);
    let reg = dmg.cpu().reg();
    assert_eq!(reg.af(), 0x01b0);
    assert_eq!(reg.bc(), 0x0013);
    assert_eq!(reg.de(), 0x00d8);
    assert_eq!(reg.hl(), 0x014d);
    assert_eq!(reg.sp, 0xfffe);
    assert_eq!(reg.pc, 0x0100);
}

#[test]
fn color_mode_is_default() {
    let rom = Rom::new(&program()).unwrap();
    let dmg: Dmg<Rom, (), ()> = Builder::default().with_cartridge(rom).build();
    assert_eq!(dmg.mmu().mode, Mode::CGB);
    assert_eq!(dmg.cpu().reg().a, 0x11);
}

#[test]
fn palette_option_reaches_the_picture_engine() {
    let pal = [[1u8, 2, 3], [4, 5, 6], [7, 8, 9], [10, 11, 12]];
    let rom = Rom::new(&program()).unwrap();
    let dmg: Dmg<Rom, (), ()> =
        Builder::default().with_cartridge(rom).with_palette(pal).with_mode(Mode::GB).build();
    assert_eq!(dmg.mmu().ppu.palette, pal);
    let color: Dmg<Rom, (), ()> =
        Builder::default().with_cartridge(Rom::new(&program()).unwrap()).with_palette(pal).build();
    assert_eq!(color.mmu().ppu.palette, grayscale());
    let plain: Dmg<Rom, (), ()> = Builder::default().with_cartridge(Rom::new(&program()).unwrap()).build();
    assert_eq!(plain.mmu().ppu.palette, grayscale());
}

#[test]
fn frame_renders_each_visible_line_once_in_order() {
    let mut dmg = machine(Mode::GB);
    for _ in 0..3 {
        dmg.mmu_mut().video.lines.clear();
        dmg.emulate_frame();
        let expected: Vec<usize> = (0..144).collect();
        assert_eq!(dmg.mmu().video.lines, expected);
    }
}

#[test]
fn frame_carry_stays_below_budget() {
    let mut dmg = machine(Mode::GB);
    for _ in 0..5 {
        dmg.emulate_frame();
        assert!(dmg.carry() < FRAME_CYCLES);
        assert!(dmg.carry() < 24);
    }
}

#[test]
fn identical_machines_draw_identical_frames() {
    let mut a = machine(Mode::GB);
    let mut b = machine(Mode::GB);
    for _ in 0..3 {
        a.emulate_frame();
        b.emulate_frame();
        assert!(a.mmu().video.frame == b.mmu().video.frame);
        assert_eq!(a.carry(), b.carry());
    }
}

#[test]
fn background_tile_is_drawn() {
    let mut dmg = machine(Mode::GB);
    dmg.emulate_frame();
    dmg.emulate_frame();
    let frame = &dmg.mmu().video.frame;
    // Row 0 of tile 1 has both planes set: color 3, shade 3 under BGP 0xfc.
    assert_eq!(frame[0][0], [0, 0, 0]);
    assert_eq!(frame[0][7], [0, 0, 0]);
    assert_eq!(frame[0][8], [0xff, 0xff, 0xff]);
    assert_eq!(frame[1][0], [0xff, 0xff, 0xff]);
}

#[test]
fn vblank_is_serviced_before_timer() {
    let rom = Rom::new(&program()).unwrap();
    let mut mmu: Mmu<Rom, (), ()> = Mmu::with_cartridge_and_video(rom, Mode::GB, ());
    let mut cpu = Cpu::default();
    cpu.reg.pc = 0x0150;
    cpu.reg.sp = 0xfffe;
    cpu.ime = true;
    mmu.write(0xffff, 0x05);
    mmu.write(0xff0f, 0x05);
    assert_eq!(cpu.step(&mut mmu), 20);
    assert_eq!(cpu.reg.pc, 0x40);
    assert!(!cpu.ime);
    assert_eq!(mmu.read(0xff0f), 0x04);
    assert_eq!(mmu.read(0xfffd), 0x01);
    assert_eq!(mmu.read(0xfffc), 0x50);
    let ints = Interrupts { enable: 0x1f, flags: 0x14 };
    assert_eq!(ints.highest(), Some(2));
}

#[test]
fn halted_processor_waits_for_pending_interrupt() {
    let rom = Rom::new(&program()).unwrap();
    let mut mmu: Mmu<Rom, (), ()> = Mmu::with_cartridge_and_video(rom, Mode::GB, ());
    let mut cpu = Cpu::default();
    cpu.reg.pc = 0x0150;
    cpu.halted = true;
    assert_eq!(cpu.step(&mut mmu), 4);
    assert_eq!(cpu.reg.pc, 0x0150);
    mmu.write(0xffff, 0x04);
    mmu.write(0xff0f, 0x04);
    cpu.step(&mut mmu);
    assert!(!cpu.halted);
    assert_eq!(cpu.reg.pc, 0x0152);
}

#[test]
fn arithmetic_flags() {
    assert_eq!(alu(0, 0x3a, 0xc6, 0), (0x00, 0xb0));
    assert_eq!(alu(0, 0x0f, 0x01, 0), (0x10, 0x20));
    assert_eq!(alu(1, 0xff, 0x00, 0x10), (0x00, 0xb0));
    assert_eq!(alu(2, 0x3e, 0x3e, 0), (0x00, 0xc0));
    assert_eq!(alu(2, 0x3e, 0x0f, 0), (0x2f, 0x60));
    assert_eq!(alu(2, 0x3e, 0x40, 0), (0xfe, 0x50));
    assert_eq!(alu(3, 0x3b, 0x2a, 0x10), (0x10, 0x40));
    assert_eq!(alu(4, 0x5a, 0x3f, 0), (0x1a, 0x20));
    assert_eq!(alu(5, 0xff, 0xff, 0), (0x00, 0x80));
    assert_eq!(alu(6, 0x5a, 0x03, 0), (0x5b, 0x00));
    assert_eq!(alu(7, 0x3c, 0x2f, 0), (0x3c, 0x60));
    assert_eq!(inc8(0xff, 0x10), (0x00, 0xb0));
    assert_eq!(daa(0x7d, 0x00), (0x83, 0x00));
    assert_eq!(daa(0x9a, 0x00), (0x00, 0x90));
    assert_eq!(shift(0, 0x85, 0), (0x0b, 0x10));
    assert_eq!(shift(6, 0xf1, 0), (0x1f, 0x00));
}

#[test]
fn register_pairs() {
    let mut reg = Registers { a: 0, f: 0, b: 0, c: 0, d: 0, e: 0, h: 0, l: 0, sp: 0, pc: 0 };
    reg.set_af(0x12ff);
    assert_eq!((reg.a, reg.f), (0x12, 0xf0));
    reg.set_hl(0xbeef);
    assert_eq!(reg.hl(), 0xbeef);
}

#[test]
fn timer_counts_and_overflows() {
    let mut t = Timer::new();
    t.tac = 0x05;
    assert!(!t.step(16));
    assert_eq!(t.tima, 1);
    t.tima = 0xff;
    t.tma = 0x80;
    assert!(t.step(16));
    assert_eq!(t.tima, 0x80);
    assert_eq!(t.div_reg(), 0);
    assert!(!t.step(256));
    assert_eq!(t.div_reg(), 1);
}

#[test]
fn joypad_groups_and_presses() {
    let mut j = Joypad::new();
    assert!(j.set_button(Button::A, true));
    assert!(!j.set_button(Button::A, true));
    j.write(0x10);
    assert_eq!(j.read(), 0xde);
    j.write(0x20);
    assert_eq!(j.read(), 0xef);
    assert!(!j.set_button(Button::A, false));
    j.write(0x10);
    assert_eq!(j.read(), 0xdf);
}

#[test]
fn button_press_wakes_stopped_processor() {
    let rom = Rom::new(&program()).unwrap();
    let mut mmu: Mmu<Rom, (), ()> = Mmu::with_cartridge_and_video(rom, Mode::GB, ());
    let mut cpu = Cpu::default();
    cpu.reg.pc = 0x0150;
    cpu.stopped = true;
    assert_eq!(cpu.step(&mut mmu), 4);
    assert_eq!(cpu.reg.pc, 0x0150);
    assert!(mmu.set_button(Button::Start, true));
    assert_eq!(mmu.read(0xff0f) & 0x10, 0x10);
    assert!(!mmu.set_button(Button::Start, true));
    cpu.step(&mut mmu);
    assert!(!cpu.stopped);
    assert_eq!(cpu.reg.pc, 0x0152);
}

#[test]
fn load_immediate_and_relative_jump() {
    let rom = Rom::new(&program()).unwrap();
    let mut mmu: Mmu<Rom, (), ()> = Mmu::with_cartridge_and_video(rom, Mode::GB, ());
    let mut cpu = Cpu::default();
    cpu.reg.pc = 0x0150;
    assert_eq!(cpu.step(&mut mmu), 8);
    assert_eq!(cpu.reg.a, 0xff);
    assert_eq!(cpu.reg.pc, 0x0152);
    cpu.reg.pc = 0x015e;
    assert_eq!(cpu.step(&mut mmu), 12);
    assert_eq!(cpu.reg.pc, 0x015e);
}

#[test]
fn register_arithmetic_through_step() {
    let mut rom = program();
    rom[0x0150] = 0x80; // ADD A, B
    rom[0x0151] = 0x78; // LD A, B
    let rom = Rom::new(&rom).unwrap();
    let mut mmu: Mmu<Rom, (), ()> = Mmu::with_cartridge_and_video(rom, Mode::GB, ());
    let mut cpu = Cpu::default();
    cpu.reg.pc = 0x0150;
    cpu.reg.a = 0x3a;
    cpu.reg.b = 0xc6;
    assert_eq!(cpu.step(&mut mmu), 4);
    assert_eq!((cpu.reg.a, cpu.reg.f), (0x00, 0xb0));
    assert_eq!(cpu.step(&mut mmu), 4);
    assert_eq!(cpu.reg.a, 0xc6);
}

#[test]
fn color_mode_palette_memory() {
    let rom = Rom::new(&program()).unwrap();
    let mut mmu: Mmu<Rom, (), ()> = Mmu::with_cartridge_and_video(rom, Mode::CGB, ());
    mmu.write(0xff68, 0x80);
    mmu.write(0xff69, 0x1f);
    mmu.write(0xff69, 0x00);
    assert_eq!(mmu.read(0xff68), 0x82);
    mmu.write(0xff68, 0x01);
    assert_eq!(mmu.read(0xff69), 0x00);
    let row = mmu.ppu.render_scanline(&mmu.vram, &mmu.oam);
    assert_eq!(row[0], [0xff, 0x00, 0x00]);
    assert_eq!(row[159], [0xff, 0x00, 0x00]);
}

#[test]
fn tick_reports_raised_interrupts() {
    let rom = Rom::new(&program()).unwrap();
    let mut mmu: Mmu<Rom, (), ()> = Mmu::with_cartridge_and_video(rom, Mode::GB, ());
    mmu.write(0xff07, 0x05);
    mmu.write(0xff05, 0xff);
    assert_eq!(mmu.tick(16), 0x04);
    assert_eq!(mmu.read(0xff0f) & 0x04, 0x04);
    mmu.write(0xff40, 0x80);
    assert_eq!(mmu.tick(144 * 456) & 0x01, 0x01);
    assert_eq!(mmu.read(0xff44), 144);
}

#[test]
fn line_log_receives_each_visible_line() {
    let rom = Rom::new(&program()).unwrap();
    let mut dmg = Builder::default()
        .with_cartridge(rom)
        .with_video(dmg_lib::ppu::LineLog::new())
        .with_mode(Mode::GB)
        .build();
    dmg.emulate_frame();
    assert_eq!(dmg.mmu().video.count, 144);
    dmg.emulate_frame();
    assert_eq!(dmg.mmu().video.count, 288);
}

#[test]
fn rgba_packing() {
    let mut row = [[0u8; 3]; 160];
    row[1] = [1, 2, 3];
    let out = dmg_lib::ppu::rgba_row(&row);
    assert_eq!(out.len(), 640);
    assert_eq!(&out[4..8], &[1, 2, 3, 0xff]);
    assert_eq!(out[3], 0xff);
}

#[test]
fn equal_builders_give_equal_machines() {
    let a: Dmg<Rom, (), ()> =
        Builder::default().with_cartridge(Rom::new(&program()).unwrap()).with_mode(Mode::GB).build();
    let b: Dmg<Rom, (), ()> = Builder::default()
        .with_cartridge(Rom::new(&program()).unwrap())
        .with_mode(Mode::GB)
        .skip_boot()
        .build();
    assert_eq!(a.cpu().reg(), b.cpu().reg());
    for addr in 0..=0xffffu32 {
        assert_eq!(a.mmu().read(addr as u16), b.mmu().read(addr as u16));
    }
    assert_eq!(a.mmu().read(0xff41), 0x86);
    assert_eq!(a.mmu().read(0xff00), 0xff);
}
