use nes_core::bus::Bus;
use nes_core::ppu::Ppu;
use nes_core::rom::{Mirroring, Rom, RomError};
use nes_core::Nes;

fn image(prg_banks: u8, flags6: u8) -> Vec<u8> {
    let mut image: Vec<u8> = vec![0x4e, 0x45, 0x53, 0x1a, prg_banks, 0x01, flags6, 0, 0, 0, 0, 0, 0, 0, 0, 0];
    let mut prg = vec![0u8; 0x4000 * prg_banks as usize];
    for (i, b) in prg.iter_mut().enumerate() {
        *b = (i % 251) as u8;
    }
    image.extend(prg);
    image.extend(vec![0x11u8; 0x2000]);
    image
}

#[test]
fn wram_is_mirrored_four_times() {
    let rom = Rom::new(&image(2, 0)).unwrap();
    let mut bus = Bus::new(&rom);
    bus.write_memory_byte(0x0812, 0xab).unwrap();
    for a in [0x0012u16, 0x0812, 0x1012, 0x1812] {
        assert_eq!(bus.read_memory_byte(a), 0xab);
    }
    bus.write_memory_word(0x1ffe, 0x1234).unwrap();
    assert_eq!(bus.read_memory_word(0x07fe), 0x1234);
}

#[test]
fn ppu_registers_are_mirrored() {
    let rom = Rom::new(&image(2, 0)).unwrap();
    let mut bus = Bus::new(&rom);
    // 0x3ffe is 0x2006, 0x200f is 0x2007.
    bus.write_memory_byte(0x3ffe, 0x24).unwrap();
    bus.write_memory_byte(0x3ffe, 0x05).unwrap();
    bus.write_memory_byte(0x200f, 0x99).unwrap();
    bus.write_memory_byte(0x2006, 0x24).unwrap();
    bus.write_memory_byte(0x2006, 0x05).unwrap();
    let _ = bus.read_memory_byte(0x2007);
    assert_eq!(bus.read_memory_byte(0x3fff), 0x99);
    assert_eq!(bus.read_memory_byte(0x2002), bus.read_memory_byte(0x3ffa));
}

#[test]
fn small_program_is_mirrored() {
    let rom = Rom::new(&image(1, 0)).unwrap();
    let mut bus = Bus::new(&rom);
    for a in [0xc000u16, 0xc123, 0xfffc, 0xffff] {
        let low = bus.read_memory_byte(a - 0x4000);
        assert_eq!(bus.read_memory_byte(a), low);
    }
    assert_eq!(bus.read_memory_byte(0xc005), 5);
}

#[test]
fn unmapped_reads_zero_and_rom_refuses_writes() {
    let rom = Rom::new(&image(2, 0)).unwrap();
    let mut bus = Bus::new(&rom);
    bus.write_memory_byte(0x6000, 0x12).unwrap();
    assert_eq!(bus.read_memory_byte(0x6000), 0);
    assert_eq!(bus.read_memory_byte(0x2000), 0);
    assert!(bus.write_memory_byte(0x8000, 1).is_err());
    assert!(bus.write_memory_word(0x7fff, 0x0101).is_err());
}

#[test]
fn bus_tick_runs_ppu_three_times_faster() {
    let rom = Rom::new(&image(2, 0)).unwrap();
    let mut bus = Bus::new(&rom);
    bus.tick(114);
    assert_eq!(bus.cycles(), 114);
    assert_eq!(bus.ppu().position(), (1, 1));
    assert!(!bus.take_frame());
    for _ in 0..300 {
        bus.tick(100);
    }
    assert!(bus.take_frame());
    assert!(!bus.take_frame());
}

#[test]
fn ppu_cursor_and_vblank() {
    let mut ppu = Ppu::new(&vec![0; 0x2000], Mirroring::Horizontal);
    ppu.write_to_control(0x80);
    assert!(!ppu.tick(341 * 241 - 1));
    assert!(!ppu.poll_nmi_interrupt());
    assert!(!ppu.tick(1));
    assert_eq!(ppu.position(), (241, 0));
    assert!(ppu.poll_nmi_interrupt());
    assert_eq!(ppu.read_status() & 0x80, 0x80);
    assert_eq!(ppu.read_status() & 0x80, 0);
    assert!(ppu.poll_nmi_status());
    assert!(!ppu.poll_nmi_status());
    assert!(ppu.tick(341 * 21 + 7));
    assert_eq!(ppu.position(), (0, 7));
    let (scanline, dot) = ppu.position();
    assert!(scanline < 262 && dot < 341);
}

#[test]
fn enabling_nmi_during_vblank_raises_it() {
    let mut ppu = Ppu::new(&vec![0; 0x2000], Mirroring::Vertical);
    ppu.tick(341 * 241);
    assert!(!ppu.poll_nmi_interrupt());
    ppu.write_to_control(0x80);
    assert!(ppu.poll_nmi_interrupt());
}

#[test]
fn data_port_walks_a_contiguous_window() {
    let mut ppu = Ppu::new(&vec![0; 0x2000], Mirroring::Vertical);
    ppu.write_to_ppu_address(0x20);
    ppu.write_to_ppu_address(0x80);
    for i in 0..256u16 {
        ppu.write_to_data(i as u8);
    }
    ppu.write_to_ppu_address(0x20);
    ppu.write_to_ppu_address(0x80);
    let _ = ppu.read_data();
    for i in 0..256u16 {
        assert_eq!(ppu.read_data(), i as u8);
    }
    assert_eq!(ppu.vram()[0x80], 0);
    assert_eq!(ppu.vram()[0x81], 1);
}

#[test]
fn data_port_stride_32() {
    let mut ppu = Ppu::new(&vec![0; 0x2000], Mirroring::Horizontal);
    ppu.write_to_control(0x04);
    ppu.write_to_ppu_address(0x20);
    ppu.write_to_ppu_address(0x00);
    ppu.write_to_data(1);
    ppu.write_to_data(2);
    assert_eq!(ppu.vram()[0x00], 1);
    assert_eq!(ppu.vram()[0x20], 2);
}

#[test]
fn name_table_mirroring() {
    let h = Ppu::new(&vec![0; 0x2000], Mirroring::Horizontal);
    assert_eq!(h.mirror_vram_address(0x2400), 0x000);
    assert_eq!(h.mirror_vram_address(0x2800), 0x400);
    assert_eq!(h.mirror_vram_address(0x2c05), 0x405);
    assert_eq!(h.mirror_vram_address(0x3005), 0x005);
    let v = Ppu::new(&vec![0; 0x2000], Mirroring::Vertical);
    assert_eq!(v.mirror_vram_address(0x2400), 0x400);
    assert_eq!(v.mirror_vram_address(0x2800), 0x000);
    assert_eq!(v.mirror_vram_address(0x2c05), 0x405);
}

#[test]
fn palette_reads_are_direct_and_mirrored() {
    let mut ppu = Ppu::new(&vec![0; 0x2000], Mirroring::Horizontal);
    ppu.write_to_ppu_address(0x3f);
    ppu.write_to_ppu_address(0x10);
    ppu.write_to_data(0x2a);
    ppu.write_to_ppu_address(0x3f);
    ppu.write_to_ppu_address(0x00);
    assert_eq!(ppu.read_data(), 0x2a);
    assert_eq!(ppu.palette()[0], 0x2a);
}

#[test]
fn status_read_resets_address_latch() {
    let mut ppu = Ppu::new(&vec![7; 0x2000], Mirroring::Horizontal);
    ppu.write_to_ppu_address(0x12);
    let _ = ppu.read_status();
    ppu.write_to_ppu_address(0x00);
    ppu.write_to_ppu_address(0x05);
    let _ = ppu.read_data();
    assert_eq!(ppu.read_data(), 7);
}

#[test]
fn background_pattern_address() {
    let mut ppu = Ppu::new(&vec![0; 0x2000], Mirroring::Horizontal);
    assert_eq!(ppu.read_background_pattern_address(), 0);
    ppu.write_to_control(0x10);
    assert_eq!(ppu.read_background_pattern_address(), 0x1000);
    assert_eq!(ppu.control(), 0x10);
}

#[test]
fn rom_parses_header() {
    let rom = Rom::new(&image(2, 0x01)).unwrap();
    assert_eq!(rom.header.constant, [0x4e, 0x45, 0x53, 0x1a]);
    assert_eq!(rom.header.prg_rom_size, 2);
    assert_eq!(rom.header.chr_rom_size, 1);
    assert_eq!(rom.program.len(), 0x8000);
    assert_eq!(rom.charactor.len(), 0x2000);
    assert_eq!(rom.program[0..2], [0x00, 0x01]);
    assert_eq!(rom.mirroring, Mirroring::Vertical);
    assert_eq!(Rom::new(&image(1, 0x00)).unwrap().mirroring, Mirroring::Horizontal);
    assert_eq!(Rom::new(&image(1, 0x09)).unwrap().mirroring, Mirroring::FourScreen);
}

#[test]
fn rom_skips_trainer() {
    let mut data = image(1, 0x04);
    let tail = data.split_off(16);
    data.extend(vec![0xeeu8; 512]);
    data.extend(tail);
    let rom = Rom::new(&data).unwrap();
    assert_eq!(rom.program[0..3], [0, 1, 2]);
}

#[test]
fn rom_errors() {
    let mut bad_magic = image(1, 0);
    bad_magic[0] = 0x4d;
    assert_eq!(Rom::new(&bad_magic).err(), Some(RomError::InvalidMagic));
    assert_eq!(Rom::new(&image(1, 0x10)).err(), Some(RomError::UnsupportedMapper));
    let mut mapper7 = image(1, 0);
    mapper7[7] = 0x10;
    assert_eq!(Rom::new(&mapper7).err(), Some(RomError::UnsupportedMapper));
    let mut three_banks = image(1, 0);
    three_banks[4] = 3;
    assert_eq!(Rom::new(&three_banks).err(), Some(RomError::UnsupportedSize));
    let mut short = image(2, 0);
    short.truncate(16 + 0x8000 + 0x1000);
    assert_eq!(Rom::new(&short).err(), Some(RomError::Truncated));
    assert_eq!(Rom::new(&vec![0x4e, 0x45]).err(), Some(RomError::Truncated));
}

#[test]
fn nes_loads_and_resets() {
    let mut data = image(2, 0);
    data[16 + 0x7ffc] = 0x34;
    data[16 + 0x7ffd] = 0x82;
    let nes = Nes::new(&data).ok().unwrap();
    assert_eq!(nes.cpu.register.pc, 0x8234);
    assert_eq!(nes.cpu.register.sp, 0xfd);
    assert!(Nes::new(&vec![0; 4]).is_err());
}
