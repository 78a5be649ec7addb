use nes_core::bus::Bus;
use nes_core::cpu::{Cpu, StatusRegister};
use nes_core::rom::Rom;

/// A bus over a 32 KiB program holding `program_data` from 0x8000 on, with the
/// reset vector pointing at 0x8000.
fn create_test_bus(program_data: &Vec<u8>) -> Bus {
    let mut image: Vec<u8> = vec![0x4e, 0x45, 0x53, 0x1a, 0x02, 0x01, 0, 0, 0, 0, 0, 0, 0, 0, 0, 0];
    let mut program = vec![0; 0x8000];
    let charactor = vec![0; 0x2000];

    let program_size = if program_data.len() > 0x8000 {
        0x8000
    } else {
        program_data.len()
    };

    for i in 0..program_size {
        program[i] = program_data[i];
    }

    program[0xfffc - 0x8000] = 0x00;
    program[0xfffd - 0x8000] = 0x80;

    image.extend(program);
    image.extend(charactor);
    let rom = Rom::new(&image).unwrap();
    Bus::new(&rom)
}

#[test]
fn test_cpu_new() {
    let mut program: Vec<u8> = Vec::new();
    for i in 0..5 {
        program.push(i);
    }
    let bus = create_test_bus(&program);
    let mut cpu = Cpu::new(bus);

    assert_eq!(cpu.register.sp, 0xfd);
    assert_eq!(cpu.bus.read_memory_byte(0x8002), 0x02);
}

#[test]
fn test_cpu_reset() {
    let mut program: Vec<u8> = Vec::new();
    for i in 0u16..0x8000 {
        program.push((i % 0x100) as u8);
    }
    let bus = create_test_bus(&program);
    let mut cpu = Cpu::new(bus);
    cpu.register.pc = 0x0000;

    cpu.reset();

    assert_eq!(cpu.register.pc, 0x8000);
}

#[test]
fn test_0x69_adc_addtion() {
    let program = vec![0x69, 0x10, 0x00];
    let bus = create_test_bus(&program);
    let mut cpu = Cpu::new(bus);
    cpu.register.a = 0x50;
    cpu.register.p.insert(StatusRegister::c);
    cpu.register.p.insert(StatusRegister::v);
    cpu.run().unwrap();

    assert_eq!(cpu.register.a, 0x61);
    assert_eq!(cpu.register.p.contains(StatusRegister::c), false);
    assert_eq!(cpu.register.p.contains(StatusRegister::v), false);
}

#[test]
fn test_0x69_adc_overflow1() {
    let program = vec![0x69, 0x50, 0x00];
    let bus = create_test_bus(&program);
    let mut cpu = Cpu::new(bus);
    cpu.register.a = 0x50;
    cpu.register.p.insert(StatusRegister::c);
    cpu.run().unwrap();

    assert_eq!(cpu.register.a, 0xa1);
    assert_eq!(cpu.register.p.contains(StatusRegister::c), false);
    assert_eq!(cpu.register.p.contains(StatusRegister::v), true);
}

#[test]
fn test_0x69_adc_overflow2() {
    let program = vec![0x69, 0x90, 0x00];
    let bus = create_test_bus(&program);
    let mut cpu = Cpu::new(bus);
    cpu.register.a = 0xd0;
    cpu.register.p.remove(StatusRegister::c);
    cpu.run().unwrap();

    assert_eq!(cpu.register.a, 0x60);
    assert_eq!(cpu.register.p.contains(StatusRegister::c), true);
    assert_eq!(cpu.register.p.contains(StatusRegister::v), true);
}

#[test]
fn test_0x29_and() {
    let program = vec![0x29, 0xf0, 0x00];
    let bus = create_test_bus(&program);
    let mut cpu = Cpu::new(bus);
    cpu.register.a = 0xff;
    cpu.run().unwrap();

    assert_eq!(cpu.register.a, 0xf0);
    assert_eq!(cpu.register.p.contains(StatusRegister::z), false);
    assert_eq!(cpu.register.p.contains(StatusRegister::n), true);
}

#[test]
fn test_0x25_and() {
    let program = vec![0x25, 0x10, 0x00];
    let bus = create_test_bus(&program);
    let mut cpu = Cpu::new(bus);
    cpu.register.a = 0xff;
    cpu.write_memory_byte(0x0010, 0xf0).unwrap();
    cpu.run().unwrap();

    assert_eq!(cpu.register.a, 0xf0);
    assert_eq!(cpu.register.p.contains(StatusRegister::z), false);
    assert_eq!(cpu.register.p.contains(StatusRegister::n), true);
}

#[test]
fn test_0x35_and() {
    let program = vec![0x35, 0x10, 0x00];
    let bus = create_test_bus(&program);
    let mut cpu = Cpu::new(bus);
    cpu.register.a = 0xff;
    cpu.register.x = 0xff;
    cpu.write_memory_byte(0x000f, 0xf0).unwrap();
    cpu.run().unwrap();

    assert_eq!(cpu.register.a, 0xf0);
    assert_eq!(cpu.register.p.contains(StatusRegister::z), false);
    assert_eq!(cpu.register.p.contains(StatusRegister::n), true);
}

#[test]
fn test_0x2d_and() {
    let program = vec![0x2d, 0x12, 0x05, 0x00];
    let bus = create_test_bus(&program);
    let mut cpu = Cpu::new(bus);
    cpu.register.a = 0xff;
    cpu.write_memory_byte(0x0512, 0xf0).unwrap();
    cpu.run().unwrap();

    assert_eq!(cpu.register.a, 0xf0);
    assert_eq!(cpu.register.p.contains(StatusRegister::z), false);
    assert_eq!(cpu.register.p.contains(StatusRegister::n), true);
}

#[test]
fn test_0x3d_and() {
    let program = vec![0x3d, 0x12, 0x05, 0x00];
    let bus = create_test_bus(&program);
    let mut cpu = Cpu::new(bus);
    cpu.register.a = 0xff;
    cpu.register.x = 0xff;
    cpu.write_memory_byte(0x0611, 0xf0).unwrap();
    cpu.run().unwrap();

    assert_eq!(cpu.register.a, 0xf0);
    assert_eq!(cpu.register.p.contains(StatusRegister::z), false);
    assert_eq!(cpu.register.p.contains(StatusRegister::n), true);
}

#[test]
fn test_0x39_and() {
    let program = vec![0x39, 0x12, 0x05, 0x00];
    let bus = create_test_bus(&program);
    let mut cpu = Cpu::new(bus);
    cpu.register.a = 0xff;
    cpu.register.y = 0xff;
    cpu.write_memory_byte(0x0611, 0xf0).unwrap();
    cpu.run().unwrap();

    assert_eq!(cpu.register.a, 0xf0);
    assert_eq!(cpu.register.p.contains(StatusRegister::z), false);
    assert_eq!(cpu.register.p.contains(StatusRegister::n), true);
}

#[test]
fn test_0x21_and() {
    let program = vec![0x21, 0x10, 0x00];
    let bus = create_test_bus(&program);
    let mut cpu = Cpu::new(bus);
    cpu.register.a = 0xff;
    cpu.register.x = 0xff;
    cpu.write_memory_word(0x000f, 0x0512).unwrap();
    cpu.write_memory_byte(0x0512, 0xf0).unwrap();
    cpu.run().unwrap();

    assert_eq!(cpu.register.a, 0xf0);
    assert_eq!(cpu.register.p.contains(StatusRegister::z), false);
    assert_eq!(cpu.register.p.contains(StatusRegister::n), true);
}

#[test]
fn test_0x31_and() {
    let program = vec![0x31, 0x10, 0x00];
    let bus = create_test_bus(&program);
    let mut cpu = Cpu::new(bus);
    cpu.register.a = 0xff;
    cpu.register.y = 0xff;
    cpu.write_memory_word(0x0010, 0x0512).unwrap();
    cpu.write_memory_byte(0x0611, 0xf0).unwrap();
    cpu.run().unwrap();

    assert_eq!(cpu.register.a, 0xf0);
    assert_eq!(cpu.register.p.contains(StatusRegister::z), false);
    assert_eq!(cpu.register.p.contains(StatusRegister::n), true);
}

#[test]
fn test_0x0a_asl() {
    let program = vec![0x0a, 0x00];
    let bus = create_test_bus(&program);
    let mut cpu = Cpu::new(bus);
    cpu.register.a = 0b1100_1111;
    cpu.run().unwrap();

    assert_eq!(cpu.register.a, 0b1001_1110);
    assert_eq!(cpu.register.p.contains(StatusRegister::c), true);
    assert_eq!(cpu.register.p.contains(StatusRegister::z), false);
    assert_eq!(cpu.register.p.contains(StatusRegister::n), true);
}

#[test]
fn test_0x06_asl() {
    let program = vec![0x06, 0x10, 0x00];
    let bus = create_test_bus(&program);
    let mut cpu = Cpu::new(bus);
    cpu.write_memory_byte(0x0010, 0b0000_1111).unwrap();
    cpu.run().unwrap();

    let result = cpu.read_memory_byte(0x0010);
    assert_eq!(result, 0b0001_1110);
    assert_eq!(cpu.register.p.contains(StatusRegister::c), false);
    assert_eq!(cpu.register.p.contains(StatusRegister::z), false);
    assert_eq!(cpu.register.p.contains(StatusRegister::n), false);
}

#[test]
fn test_bcc_branch() {
    let program = vec![0x90, 0x01, 0x00, 0x0a, 0x00];
    let bus = create_test_bus(&program);
    let mut cpu = Cpu::new(bus);
    cpu.register.p.remove(StatusRegister::c);
    cpu.register.a = 0b0000_0001;
    cpu.run().unwrap();

    assert_eq!(cpu.register.a, 0b0000_0010);
}

#[test]
fn test_bcc_not_branch() {
    let program = vec![0x90, 0x01, 0x00, 0x0a, 0x00];
    let bus = create_test_bus(&program);
    let mut cpu = Cpu::new(bus);
    cpu.register.p.insert(StatusRegister::c);
    cpu.register.a = 0b0000_0001;
    cpu.run().unwrap();

    assert_eq!(cpu.register.a, 0b0000_0001);
}

#[test]
fn test_bcs_branch() {
    let program = vec![0xb0, 0x01, 0x00, 0x0a, 0x00];
    let bus = create_test_bus(&program);
    let mut cpu = Cpu::new(bus);
    cpu.register.p.insert(StatusRegister::c);
    cpu.register.a = 0b0000_0001;
    cpu.run().unwrap();

    assert_eq!(cpu.register.a, 0b0000_0010);
}

#[test]
fn test_bcs_not_branch() {
    let program = vec![0xb0, 0x01, 0x00, 0x0a, 0x00];
    let bus = create_test_bus(&program);
    let mut cpu = Cpu::new(bus);
    cpu.register.p.remove(StatusRegister::c);
    cpu.register.a = 0b0000_0001;
    cpu.run().unwrap();

    assert_eq!(cpu.register.a, 0b0000_0001);
}

#[test]
fn test_beq_branch() {
    let program = vec![0xf0, 0x01, 0x00, 0x0a, 0x00];
    let bus = create_test_bus(&program);
    let mut cpu = Cpu::new(bus);
    cpu.register.p.insert(StatusRegister::z);
    cpu.register.a = 0b0000_0001;
    cpu.run().unwrap();

    assert_eq!(cpu.register.a, 0b0000_0010);
}

#[test]
fn test_beq_not_branch() {
    let program = vec![0xf0, 0x01, 0x00, 0x0a, 0x00];
    let bus = create_test_bus(&program);
    let mut cpu = Cpu::new(bus);
    cpu.register.p.remove(StatusRegister::z);
    cpu.register.a = 0b0000_0001;
    cpu.run().unwrap();

    assert_eq!(cpu.register.a, 0b0000_0001);
}

#[test]
fn test_0x24_bit() {
    let program = vec![0x24, 0x10, 0x00];
    let bus = create_test_bus(&program);
    let mut cpu = Cpu::new(bus);
    cpu.write_memory_byte(0x10, 0b1100_0000).unwrap();
    cpu.register.a = 0x00;
    cpu.run().unwrap();

    assert_eq!(cpu.register.p.contains(StatusRegister::z), true);
    assert_eq!(cpu.register.p.contains(StatusRegister::v), true);
    assert_eq!(cpu.register.p.contains(StatusRegister::n), true);
}

#[test]
fn test_bmi_branch() {
    let program = vec![0x30, 0x01, 0x00, 0x0a, 0x00];
    let bus = create_test_bus(&program);
    let mut cpu = Cpu::new(bus);
    cpu.register.p.insert(StatusRegister::n);
    cpu.register.a = 0b0000_0001;
    cpu.run().unwrap();

    assert_eq!(cpu.register.a, 0b0000_0010);
}

#[test]
fn test_bmi_not_branch() {
    let program = vec![0x30, 0x01, 0x00, 0x0a, 0x00];
    let bus = create_test_bus(&program);
    let mut cpu = Cpu::new(bus);
    cpu.register.p.remove(StatusRegister::n);
    cpu.register.a = 0b0000_0001;
    cpu.run().unwrap();

    assert_eq!(cpu.register.a, 0b0000_0001);
}

#[test]
fn test_bne_branch() {
    let program = vec![0xd0, 0x01, 0x00, 0x0a, 0x00];
    let bus = create_test_bus(&program);
    let mut cpu = Cpu::new(bus);
    cpu.register.p.remove(StatusRegister::z);
    cpu.register.a = 0b0000_0001;
    cpu.run().unwrap();

    assert_eq!(cpu.register.a, 0b0000_0010);
}

#[test]
fn test_bne_not_branch() {
    let program = vec![0xd0, 0x01, 0x00, 0x0a, 0x00];
    let bus = create_test_bus(&program);
    let mut cpu = Cpu::new(bus);
    cpu.register.p.insert(StatusRegister::z);
    cpu.register.a = 0b0000_0001;
    cpu.run().unwrap();

    assert_eq!(cpu.register.a, 0b0000_0001);
}

#[test]
fn test_bpl_branch() {
    let program = vec![0x10, 0x01, 0x00, 0x0a, 0x00];
    let bus = create_test_bus(&program);
    let mut cpu = Cpu::new(bus);
    cpu.register.p.remove(StatusRegister::n);
    cpu.register.a = 0b0000_0001;
    cpu.run().unwrap();

    assert_eq!(cpu.register.a, 0b0000_0010);
}

#[test]
fn test_bpl_not_branch() {
    let program = vec![0x10, 0x01, 0x00, 0x0a, 0x00];
    let bus = create_test_bus(&program);
    let mut cpu = Cpu::new(bus);
    cpu.register.p.insert(StatusRegister::n);
    cpu.register.a = 0b0000_0001;
    cpu.run().unwrap();

    assert_eq!(cpu.register.a, 0b0000_0001);
}

#[test]
fn test_brk() {
    let program = vec![0x00, 0x0a, 0x00];
    let bus = create_test_bus(&program);
    let mut cpu = Cpu::new(bus);
    cpu.register.a = 0b0000_0001;
    cpu.run().unwrap();

    assert_eq!(cpu.register.a, 0b0000_0001);
}

#[test]
fn test_bvc_branch() {
    let program = vec![0x50, 0x01, 0x00, 0x0a, 0x00];
    let bus = create_test_bus(&program);
    let mut cpu = Cpu::new(bus);
    cpu.register.p.remove(StatusRegister::v);
    cpu.register.a = 0b0000_0001;
    cpu.run().unwrap();

    assert_eq!(cpu.register.a, 0b0000_0010);
}

#[test]
fn test_bvc_not_branch() {
    let program = vec![0x50, 0x01, 0x00, 0x0a, 0x00];
    let bus = create_test_bus(&program);
    let mut cpu = Cpu::new(bus);
    cpu.register.p.insert(StatusRegister::v);
    cpu.register.a = 0b0000_0001;
    cpu.run().unwrap();

    assert_eq!(cpu.register.a, 0b0000_0001);
}

#[test]
fn test_bvs_branch() {
    let program = vec![0x70, 0x01, 0x00, 0x0a, 0x00];
    let bus = create_test_bus(&program);
    let mut cpu = Cpu::new(bus);
    cpu.register.p.insert(StatusRegister::v);
    cpu.register.a = 0b0000_0001;
    cpu.run().unwrap();

    assert_eq!(cpu.register.a, 0b0000_0010);
}

#[test]
fn test_bvs_not_branch() {
    let program = vec![0x70, 0x01, 0x00, 0x0a, 0x00];
    let bus = create_test_bus(&program);
    let mut cpu = Cpu::new(bus);
    cpu.register.p.remove(StatusRegister::v);
    cpu.register.a = 0b0000_0001;
    cpu.run().unwrap();

    assert_eq!(cpu.register.a, 0b0000_0001);
}

#[test]
fn test_clc() {
    let program = vec![0x18, 0x00];
    let bus = create_test_bus(&program);
    let mut cpu = Cpu::new(bus);
    cpu.register.p.insert(StatusRegister::c);
    cpu.run().unwrap();

    assert_eq!(cpu.register.p.contains(StatusRegister::c), false);
}

#[test]
fn test_cld() {
    let program = vec![0xd8, 0x00];
    let bus = create_test_bus(&program);
    let mut cpu = Cpu::new(bus);
    cpu.register.p.insert(StatusRegister::d);
    cpu.run().unwrap();

    assert_eq!(cpu.register.p.contains(StatusRegister::d), false);
}

#[test]
fn test_cli() {
    let program = vec![0x58, 0x00];
    let bus = create_test_bus(&program);
    let mut cpu = Cpu::new(bus);
    cpu.register.p.insert(StatusRegister::i);
    cpu.run().unwrap();

    assert_eq!(cpu.register.p.contains(StatusRegister::i), false);
}

#[test]
fn test_clv() {
    let program = vec![0xb8, 0x00];
    let bus = create_test_bus(&program);
    let mut cpu = Cpu::new(bus);
    cpu.register.p.insert(StatusRegister::v);
    cpu.run().unwrap();

    assert_eq!(cpu.register.p.contains(StatusRegister::v), false);
}

#[test]
fn test_0xc9_cmp_carry() {
    let program = vec![0xc9, 0x01, 0x00];
    let bus = create_test_bus(&program);
    let mut cpu = Cpu::new(bus);
    cpu.register.a = 0x01;
    cpu.run().unwrap();

    assert_eq!(cpu.register.p.contains(StatusRegister::c), true);
    assert_eq!(cpu.register.p.contains(StatusRegister::z), true);
    assert_eq!(cpu.register.p.contains(StatusRegister::n), false);
}

#[test]
fn test_0xc9_cmp_not_carry() {
    let program = vec![0xc9, 0x02, 0x00];
    let bus = create_test_bus(&program);
    let mut cpu = Cpu::new(bus);
    cpu.register.a = 0x01;
    cpu.register.p.insert(StatusRegister::c);
    cpu.run().unwrap();

    assert_eq!(cpu.register.p.contains(StatusRegister::c), false);
    assert_eq!(cpu.register.p.contains(StatusRegister::z), false);
    assert_eq!(cpu.register.p.contains(StatusRegister::n), true);
}

#[test]
fn test_0xe0_cpx_carry() {
    let program = vec![0xe0, 0x01, 0x00];
    let bus = create_test_bus(&program);
    let mut cpu = Cpu::new(bus);
    cpu.register.x = 0x01;
    cpu.run().unwrap();

    assert_eq!(cpu.register.p.contains(StatusRegister::c), true);
    assert_eq!(cpu.register.p.contains(StatusRegister::z), true);
    assert_eq!(cpu.register.p.contains(StatusRegister::n), false);
}

#[test]
fn test_0xe0_cpx_not_carry() {
    let program = vec![0xe0, 0x02, 0x00];
    let bus = create_test_bus(&program);
    let mut cpu = Cpu::new(bus);
    cpu.register.x = 0x01;
    cpu.run().unwrap();

    assert_eq!(cpu.register.p.contains(StatusRegister::c), false);
    assert_eq!(cpu.register.p.contains(StatusRegister::z), false);
    assert_eq!(cpu.register.p.contains(StatusRegister::n), true);
}

#[test]
fn test_0xc0_cpy_carry() {
    let program = vec![0xc0, 0x01, 0x00];
    let bus = create_test_bus(&program);
    let mut cpu = Cpu::new(bus);
    cpu.register.y = 0x01;
    cpu.run().unwrap();

    assert_eq!(cpu.register.p.contains(StatusRegister::c), true);
    assert_eq!(cpu.register.p.contains(StatusRegister::z), true);
    assert_eq!(cpu.register.p.contains(StatusRegister::n), false);
}

#[test]
fn test_0xc0_cpy_not_carry() {
    let program = vec![0xc0, 0x02, 0x00];
    let bus = create_test_bus(&program);
    let mut cpu = Cpu::new(bus);
    cpu.register.y = 0x01;
    cpu.run().unwrap();

    assert_eq!(cpu.register.p.contains(StatusRegister::c), false);
    assert_eq!(cpu.register.p.contains(StatusRegister::z), false);
    assert_eq!(cpu.register.p.contains(StatusRegister::n), true);
}

#[test]
fn test_0xc6_dec() {
    let program = vec![0xc6, 0x02, 0x00];
    let bus = create_test_bus(&program);
    let mut cpu = Cpu::new(bus);
    cpu.write_memory_byte(0x0002, 0x00).unwrap();
    cpu.run().unwrap();

    let result = cpu.read_memory_byte(0x0002);
    assert_eq!(result, 0xff);
    assert_eq!(cpu.register.p.contains(StatusRegister::z), false);
    assert_eq!(cpu.register.p.contains(StatusRegister::n), true);
}

#[test]
fn test_dex() {
    let program = vec![0xca, 0x00];
    let bus = create_test_bus(&program);
    let mut cpu = Cpu::new(bus);
    cpu.register.x = 0;
    cpu.run().unwrap();

    assert_eq!(cpu.register.x, 0xff);
    assert_eq!(cpu.register.p.contains(StatusRegister::z), false);
    assert_eq!(cpu.register.p.contains(StatusRegister::n), true);
}

#[test]
fn test_dey() {
    let program = vec![0x88, 0x00];
    let bus = create_test_bus(&program);
    let mut cpu = Cpu::new(bus);
    cpu.register.y = 0;
    cpu.run().unwrap();

    assert_eq!(cpu.register.y, 0xff);
    assert_eq!(cpu.register.p.contains(StatusRegister::z), false);
    assert_eq!(cpu.register.p.contains(StatusRegister::n), true);
}

#[test]
fn test_0x49_eor() {
    let program = vec![0x49, 0x0f, 0x00];
    let bus = create_test_bus(&program);
    let mut cpu = Cpu::new(bus);
    cpu.register.a = 0xff;
    cpu.run().unwrap();

    assert_eq!(cpu.register.a, 0xf0);
    assert_eq!(cpu.register.p.contains(StatusRegister::z), false);
    assert_eq!(cpu.register.p.contains(StatusRegister::n), true);
}

#[test]
fn test_0xe6_inc() {
    let program = vec![0xe6, 0x02, 0x00];
    let bus = create_test_bus(&program);
    let mut cpu = Cpu::new(bus);
    cpu.write_memory_byte(0x0002, 0xff).unwrap();
    cpu.run().unwrap();

    let result = cpu.read_memory_byte(0x0002);
    assert_eq!(result, 0x00);
    assert_eq!(cpu.register.p.contains(StatusRegister::z), true);
    assert_eq!(cpu.register.p.contains(StatusRegister::n), false);
}

#[test]
fn test_inx() {
    let program = vec![0xe8, 0x00];
    let bus = create_test_bus(&program);
    let mut cpu = Cpu::new(bus);
    cpu.register.x = 0xff;
    cpu.run().unwrap();

    assert_eq!(cpu.register.x, 0x00);
    assert_eq!(cpu.register.p.contains(StatusRegister::z), true);
    assert_eq!(cpu.register.p.contains(StatusRegister::n), false);
}

#[test]
fn test_iny() {
    let program = vec![0xc8, 0x00];
    let bus = create_test_bus(&program);
    let mut cpu = Cpu::new(bus);
    cpu.register.y = 0xff;
    cpu.run().unwrap();

    assert_eq!(cpu.register.y, 0x00);
    assert_eq!(cpu.register.p.contains(StatusRegister::z), true);
    assert_eq!(cpu.register.p.contains(StatusRegister::n), false);
}

#[test]
fn test_0x4c_jmp() {
    let program = vec![
        0x4c, 0x0a, 0x80, 0xea, 0xea, 0xea, 0xea, 0xea, 0xea, 0xea, 0x38, 0x00, 0xea, 0xea,
        0xea, 0xea, 0xea, 0xea, 0xea, 0xea, 0xea, 0xea, 0xea, 0xea, 0xea, 0xea, 0xea, 0xea,
        0xea, 0xea, 0xea, 0xea, 0xea, 0xea, 0xea, 0xea, 0xea, 0xea, 0xea, 0xea, 0xea, 0x00,
    ];
    let bus = create_test_bus(&program);
    let mut cpu = Cpu::new(bus);
    cpu.run().unwrap();

    assert_eq!(cpu.register.p.contains(StatusRegister::c), true);
}

#[test]
fn test_0x6c_jmp() {
    let program = vec![
        0x6c, 0x00, 0x02, 0xea, 0xea, 0xea, 0xea, 0xea, 0xea, 0xea, 0x38, 0x00, 0xea, 0xea,
        0xea, 0xea, 0xea, 0xea, 0xea, 0xea, 0xea, 0xea, 0xea, 0xea, 0xea, 0xea, 0xea, 0xea,
        0xea, 0xea, 0xea, 0xea, 0xea, 0xea, 0xea, 0xea, 0xea, 0xea, 0xea, 0xea, 0xea, 0x00,
    ];
    let bus = create_test_bus(&program);
    let mut cpu = Cpu::new(bus);
    cpu.write_memory_word(0x0200, 0x800a).unwrap();
    cpu.run().unwrap();

    assert_eq!(cpu.register.p.contains(StatusRegister::c), true);
}

#[test]
fn test_jsr() {
    let program = vec![
        0x20, 0x0a, 0x80, 0xea, 0xea, 0xea, 0xea, 0xea, 0xea, 0xea, 0x38, 0x00, 0xea, 0xea,
        0xea, 0xea, 0xea, 0xea, 0xea, 0xea, 0xea, 0xea, 0xea, 0xea, 0xea, 0xea, 0xea, 0xea,
        0xea, 0xea, 0xea, 0xea, 0xea, 0xea, 0xea, 0xea, 0xea, 0xea, 0xea, 0xea, 0xea, 0x00,
    ];
    let bus = create_test_bus(&program);
    let mut cpu = Cpu::new(bus);
    cpu.run().unwrap();

    assert_eq!(cpu.register.sp, 0xfb);
    assert_eq!(cpu.read_memory_word(0x01fc), 0x8002);
    assert_eq!(cpu.register.p.contains(StatusRegister::c), true);
}

#[test]
fn test_0xa9_lda_immidiate_load_data() {
    let program = vec![0xa9, 0x05, 0x00];
    let bus = create_test_bus(&program);
    let mut cpu = Cpu::new(bus);
    cpu.run().unwrap();

    assert_eq!(cpu.register.a, 0x05);
    assert_eq!(cpu.register.p.contains(StatusRegister::z), false);
    assert_eq!(cpu.register.p.contains(StatusRegister::n), false);
}

#[test]
fn test_0xa9_lda_zero_flag() {
    let program = vec![0xa9, 0x00, 0x00];
    let bus = create_test_bus(&program);
    let mut cpu = Cpu::new(bus);
    cpu.run().unwrap();

    assert_eq!(cpu.register.p.contains(StatusRegister::z), true);
}

#[test]
fn test_0xa9_lda_negative_flag() {
    let program = vec![0xa9, 0b1000_0000, 0x00];
    let bus = create_test_bus(&program);
    let mut cpu = Cpu::new(bus);
    cpu.run().unwrap();

    assert_eq!(cpu.register.p.contains(StatusRegister::n), true);
}

#[test]
fn test_0xa2_ldx() {
    let program = vec![0xa2, 0b1000_0000, 0x00];
    let bus = create_test_bus(&program);
    let mut cpu = Cpu::new(bus);
    cpu.run().unwrap();

    assert_eq!(cpu.register.x, 0b1000_0000);
    assert_eq!(cpu.register.p.contains(StatusRegister::z), false);
    assert_eq!(cpu.register.p.contains(StatusRegister::n), true);
}

#[test]
fn test_0xa0_ldy() {
    let program = vec![0xa0, 0b1000_0000, 0x00];
    let bus = create_test_bus(&program);
    let mut cpu = Cpu::new(bus);
    cpu.run().unwrap();

    assert_eq!(cpu.register.y, 0b1000_0000);
    assert_eq!(cpu.register.p.contains(StatusRegister::z), false);
    assert_eq!(cpu.register.p.contains(StatusRegister::n), true);
}

#[test]
fn test_0x4a_lsr() {
    let program = vec![0x4a, 0x00];
    let bus = create_test_bus(&program);
    let mut cpu = Cpu::new(bus);
    cpu.register.a = 0b1100_1111;
    cpu.run().unwrap();

    assert_eq!(cpu.register.a, 0b0110_0111);
    assert_eq!(cpu.register.p.contains(StatusRegister::c), true);
    assert_eq!(cpu.register.p.contains(StatusRegister::z), false);
    assert_eq!(cpu.register.p.contains(StatusRegister::n), false);
}

#[test]
fn test_0x46_lsr() {
    let program = vec![0x46, 0x10, 0x00];
    let bus = create_test_bus(&program);
    let mut cpu = Cpu::new(bus);
    cpu.write_memory_byte(0x0010, 0b0000_1110).unwrap();
    cpu.run().unwrap();

    let result = cpu.read_memory_byte(0x0010);
    assert_eq!(result, 0b0000_0111);
    assert_eq!(cpu.register.p.contains(StatusRegister::c), false);
    assert_eq!(cpu.register.p.contains(StatusRegister::z), false);
    assert_eq!(cpu.register.p.contains(StatusRegister::n), false);
}

#[test]
fn test_nop() {
    let program = vec![0xea, 0x00];
    let bus = create_test_bus(&program);
    let mut cpu = Cpu::new(bus);
    cpu.run().unwrap();
}

#[test]
fn test_0x09_ora() {
    let program = vec![0x09, 0x55, 0x00];
    let bus = create_test_bus(&program);
    let mut cpu = Cpu::new(bus);
    cpu.register.a = 0x80;
    cpu.run().unwrap();

    assert_eq!(cpu.register.a, 0xd5);
    assert_eq!(cpu.register.p.contains(StatusRegister::z), false);
    assert_eq!(cpu.register.p.contains(StatusRegister::n), true);
}

#[test]
fn test_pha() {
    let program = vec![0x48, 0x00];
    let bus = create_test_bus(&program);
    let mut cpu = Cpu::new(bus);
    cpu.register.a = 0x80;
    cpu.run().unwrap();

    assert_eq!(cpu.register.sp, 0xfc);
    assert_eq!(cpu.read_memory_byte(0x01fd), 0x80);
}

#[test]
fn test_php() {
    let program = vec![0x08, 0x00];
    let bus = create_test_bus(&program);
    let mut cpu = Cpu::new(bus);
    cpu.register.p = StatusRegister::from_bits(0b01000101).unwrap();
    cpu.run().unwrap();

    assert_eq!(cpu.register.sp, 0xfc);
    assert_eq!(cpu.read_memory_byte(0x01fd), 0b01110101);
}

#[test]
fn test_pla() {
    let program = vec![0x68, 0x00];
    let bus = create_test_bus(&program);
    let mut cpu = Cpu::new(bus);
    cpu.register.sp = 0xfc;
    cpu.write_memory_word(0x01fd, 0x80).unwrap();
    cpu.run().unwrap();

    assert_eq!(cpu.register.sp, 0xfd);
    assert_eq!(cpu.register.a, 0x80);
    assert_eq!(cpu.register.p.contains(StatusRegister::z), false);
    assert_eq!(cpu.register.p.contains(StatusRegister::n), true);
}

#[test]
fn test_plp() {
    let program = vec![0x28, 0x00];
    let bus = create_test_bus(&program);
    let mut cpu = Cpu::new(bus);
    cpu.register.sp = 0xfc;
    cpu.write_memory_word(0x01fd, 0b01010101).unwrap();
    cpu.run().unwrap();

    assert_eq!(cpu.register.sp, 0xfd);
    assert_eq!(cpu.register.p.bits(), 0b01100101);
}

#[test]
fn test_0x2a_rol() {
    let program = vec![0x2a, 0x00];
    let bus = create_test_bus(&program);
    let mut cpu = Cpu::new(bus);
    cpu.register.a = 0b1100_1111;
    cpu.register.p.insert(StatusRegister::c);
    cpu.run().unwrap();

    assert_eq!(cpu.register.a, 0b1001_1111);
    assert_eq!(cpu.register.p.contains(StatusRegister::c), true);
    assert_eq!(cpu.register.p.contains(StatusRegister::z), false);
    assert_eq!(cpu.register.p.contains(StatusRegister::n), true);
}

#[test]
fn test_0x26_rol() {
    let program = vec![0x26, 0x10, 0x00];
    let bus = create_test_bus(&program);
    let mut cpu = Cpu::new(bus);
    cpu.write_memory_byte(0x0010, 0b0000_1111).unwrap();
    cpu.run().unwrap();

    let result = cpu.read_memory_byte(0x0010);
    assert_eq!(result, 0b0001_1110);
    assert_eq!(cpu.register.p.contains(StatusRegister::c), false);
    assert_eq!(cpu.register.p.contains(StatusRegister::z), false);
    assert_eq!(cpu.register.p.contains(StatusRegister::n), false);
}

#[test]
fn test_0x6a_ror() {
    let program = vec![0x6a, 0x00];
    let bus = create_test_bus(&program);
    let mut cpu = Cpu::new(bus);
    cpu.register.a = 0b1100_1111;
    cpu.register.p.insert(StatusRegister::c);
    cpu.run().unwrap();

    assert_eq!(cpu.register.a, 0b1110_0111);
    assert_eq!(cpu.register.p.contains(StatusRegister::c), true);
    assert_eq!(cpu.register.p.contains(StatusRegister::z), false);
    assert_eq!(cpu.register.p.contains(StatusRegister::n), true);
}

#[test]
fn test_0x66_ror() {
    let program = vec![0x66, 0x10, 0x00];
    let bus = create_test_bus(&program);
    let mut cpu = Cpu::new(bus);
    cpu.write_memory_byte(0x0010, 0b0000_1110).unwrap();
    cpu.run().unwrap();

    let result = cpu.read_memory_byte(0x0010);
    assert_eq!(result, 0b0000_0111);
    assert_eq!(cpu.register.p.contains(StatusRegister::c), false);
    assert_eq!(cpu.register.p.contains(StatusRegister::z), false);
    assert_eq!(cpu.register.p.contains(StatusRegister::n), false);
}

#[test]
fn test_rti() {
    let program = vec![
        0x40, 0xea, 0xea, 0xea, 0xea, 0xea, 0xea, 0xea, 0xea, 0xea, 0x38, 0x00, 0xea, 0xea,
        0xea, 0xea, 0xea, 0xea, 0xea, 0xea, 0xea, 0xea, 0xea, 0xea, 0xea, 0xea, 0xea, 0xea,
        0xea, 0xea, 0xea, 0xea, 0xea, 0xea, 0xea, 0xea, 0xea, 0xea, 0xea, 0xea, 0xea, 0x00,
    ];
    let bus = create_test_bus(&program);
    let mut cpu = Cpu::new(bus);
    cpu.register.sp = 0xfa;
    cpu.write_memory_word(0x01fc, 0x800a).unwrap();
    cpu.write_memory_byte(0x01fb, 0b01010101).unwrap();
    cpu.run().unwrap();

    assert_eq!(cpu.register.sp, 0xfd);
    assert_eq!(cpu.register.p.contains(StatusRegister::c), true);
    assert_eq!(cpu.register.p.bits(), 0b01100101);
}

#[test]
fn test_rts() {
    let program = vec![
        0x60, 0xea, 0xea, 0xea, 0xea, 0xea, 0xea, 0xea, 0xea, 0xea, 0x38, 0x00, 0xea, 0xea,
        0xea, 0xea, 0xea, 0xea, 0xea, 0xea, 0xea, 0xea, 0xea, 0xea, 0xea, 0xea, 0xea, 0xea,
        0xea, 0xea, 0xea, 0xea, 0xea, 0xea, 0xea, 0xea, 0xea, 0xea, 0xea, 0xea, 0xea, 0x00,
    ];
    let bus = create_test_bus(&program);
    let mut cpu = Cpu::new(bus);
    cpu.register.sp = 0xfb;
    cpu.write_memory_word(0x01fc, 0x8009).unwrap();
    cpu.run().unwrap();

    assert_eq!(cpu.register.sp, 0xfd);
    assert_eq!(cpu.register.p.contains(StatusRegister::c), true);
}

#[test]
fn test_0xe9_sbc_subtraction() {
    let program = vec![0xe9, 0x40, 0x00];
    let bus = create_test_bus(&program);
    let mut cpu = Cpu::new(bus);
    cpu.register.a = 0x50;
    cpu.register.p.insert(StatusRegister::c);
    cpu.run().unwrap();

    assert_eq!(cpu.register.a, 0x10);
    assert_eq!(cpu.register.p.contains(StatusRegister::c), true);
    assert_eq!(cpu.register.p.contains(StatusRegister::v), false);
}

#[test]
fn test_0xe9_sbc_overflow1() {
    let program = vec![0xe9, 0xb0, 0x00];
    let bus = create_test_bus(&program);
    let mut cpu = Cpu::new(bus);
    cpu.register.a = 0x50;
    cpu.register.p.insert(StatusRegister::c);
    cpu.run().unwrap();

    assert_eq!(cpu.register.a, 0xa0);
    assert_eq!(cpu.register.p.contains(StatusRegister::c), false);
    assert_eq!(cpu.register.p.contains(StatusRegister::v), true);
}

#[test]
fn test_0xe9_sbc_overflow2() {
    let program = vec![0xe9, 0x70, 0x00];
    let bus = create_test_bus(&program);
    let mut cpu = Cpu::new(bus);
    cpu.register.a = 0xd0;
    cpu.register.p.remove(StatusRegister::c);
    cpu.run().unwrap();

    assert_eq!(cpu.register.a, 0x5f);
    assert_eq!(cpu.register.p.contains(StatusRegister::c), true);
    assert_eq!(cpu.register.p.contains(StatusRegister::v), true);
}

#[test]
fn test_sec_set_carry() {
    let program = vec![0x38, 0x00];
    let bus = create_test_bus(&program);
    let mut cpu = Cpu::new(bus);
    cpu.run().unwrap();

    assert_eq!(cpu.register.p.contains(StatusRegister::c), true);
}

#[test]
fn test_sed_set_decimal() {
    let program = vec![0xf8, 0x00];
    let bus = create_test_bus(&program);
    let mut cpu = Cpu::new(bus);
    cpu.run().unwrap();

    assert_eq!(cpu.register.p.contains(StatusRegister::d), true);
}

#[test]
fn test_sei_disable_interrupt() {
    let program = vec![0x78, 0x00];
    let bus = create_test_bus(&program);
    let mut cpu = Cpu::new(bus);
    cpu.run().unwrap();

    assert_eq!(cpu.register.p.contains(StatusRegister::i), true);
}

#[test]
fn test_lda_from_memory() {
    let program = vec![0xa5, 0x10, 0x00];
    let bus = create_test_bus(&program);
    let mut cpu = Cpu::new(bus);
    cpu.write_memory_byte(0x0010, 0x55).unwrap();
    cpu.run().unwrap();

    assert_eq!(cpu.register.a, 0x55);
}

#[test]
fn test_0x85_sta_store_a() {
    let program = vec![0x85, 0x10, 0x00];
    let bus = create_test_bus(&program);
    let mut cpu = Cpu::new(bus);
    cpu.register.a = 100;
    cpu.run().unwrap();

    assert_eq!(cpu.read_memory_byte(0x0010), 100);
}

#[test]
fn test_0x86_stx_store_x() {
    let program = vec![0x86, 0x10, 0x00];
    let bus = create_test_bus(&program);
    let mut cpu = Cpu::new(bus);
    cpu.register.x = 100;
    cpu.run().unwrap();

    assert_eq!(cpu.read_memory_byte(0x0010), 100);
}

#[test]
fn test_0x96_stx() {
    let program = vec![0x96, 0x10, 0x00];
    let bus = create_test_bus(&program);
    let mut cpu = Cpu::new(bus);
    cpu.register.x = 100;
    cpu.register.y = 0xff;
    cpu.run().unwrap();

    assert_eq!(cpu.read_memory_byte(0x000f), 100);
}

#[test]
fn test_0x84_sty_store_y() {
    let program = vec![0x84, 0x10, 0x00];
    let bus = create_test_bus(&program);
    let mut cpu = Cpu::new(bus);
    cpu.register.y = 100;
    cpu.run().unwrap();

    assert_eq!(cpu.read_memory_byte(0x0010), 100);
}

#[test]
fn test_0xaa_tax_move_a_to_x() {
    let program = vec![0xaa, 0x00];
    let bus = create_test_bus(&program);
    let mut cpu = Cpu::new(bus);
    cpu.register.a = 10;
    cpu.run().unwrap();

    assert_eq!(cpu.register.x, 10);
}

#[test]
fn test_5_ops_working_together() {
    let program = vec![0xa9, 0xc0, 0xaa, 0xe8, 0x00];
    let bus = create_test_bus(&program);
    let mut cpu = Cpu::new(bus);
    cpu.run().unwrap();

    assert_eq!(cpu.register.x, 0xc1)
}

#[test]
fn test_tay_move_a_to_y() {
    let program = vec![0xa8, 0x00];
    let bus = create_test_bus(&program);
    let mut cpu = Cpu::new(bus);
    cpu.register.a = 20;
    cpu.run().unwrap();

    assert_eq!(cpu.register.y, 20);
}

#[test]
fn test_tsx_move_sp_to_x() {
    let program = vec![0xba, 0x00];
    let bus = create_test_bus(&program);
    let mut cpu = Cpu::new(bus);
    cpu.register.sp = 0x50;
    cpu.run().unwrap();

    assert_eq!(cpu.register.x, 0x50);
}

#[test]
fn test_txa_move_x_to_a() {
    let program = vec![0x8a, 0x00];
    let bus = create_test_bus(&program);
    let mut cpu = Cpu::new(bus);
    cpu.register.x = 20;
    cpu.run().unwrap();

    assert_eq!(cpu.register.a, 20);
}

#[test]
fn test_txs_move_x_to_sp() {
    let program = vec![0x9a, 0x00];
    let bus = create_test_bus(&program);
    let mut cpu = Cpu::new(bus);
    cpu.register.x = 0x50;
    cpu.run().unwrap();

    assert_eq!(cpu.register.sp, 0x50);
}

#[test]
fn test_tya_move_y_to_a() {
    let program = vec![0x98, 0x00];
    let bus = create_test_bus(&program);
    let mut cpu = Cpu::new(bus);
    cpu.register.y = 20;
    cpu.run().unwrap();

    assert_eq!(cpu.register.a, 20);
}
