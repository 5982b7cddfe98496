use pp8085_lib::cpu::PP8085;
use pp8085_lib::memory::Memory;
use pp8085_lib::model::{Cond, Reg, RegPair};

#[test]
fn test_find_parity() {
    assert!(PP8085::find_parity(0x22));
    assert!(!PP8085::find_parity(0x32));
}

#[test]
fn test_add_r() {
    let mut x: u8 = 0x11;
    let mut y: u8 = 0x11;
    let mut res = x + y;
    let mut cpu = PP8085::new();
    cpu.set_a(x);
    cpu.set_b(y);
    cpu.add_r(Reg::B);
    assert_eq!(cpu.get_a(), res);
    assert!(!cpu.get_carry());
    assert!(!cpu.get_overflow());
    assert!(!cpu.get_zero());
    assert!(cpu.get_parity());

    x = 0xff;
    y = 0x01;
    res = 0x00;
    cpu.set_a(x);
    cpu.set_l(y);
    cpu.add_r(Reg::L);
    assert_eq!(cpu.get_a(), res);
    assert!(cpu.get_carry());
    assert!(cpu.get_overflow());
    assert!(cpu.get_zero());
    assert!(cpu.get_parity());

    x = 0xff;
    y = 0x02;
    res = 0x01;
    cpu.set_a(x);
    cpu.set_h(y);
    cpu.add_r(Reg::H);
    assert_eq!(cpu.get_a(), res);
    assert!(cpu.get_carry());
    assert!(cpu.get_overflow());
    assert!(!cpu.get_zero());
    assert!(!cpu.get_parity());

    x = 0x99;
    y = 0xdd;
    res = 0x76;
    cpu.set_a(x);
    cpu.set_d(y);
    cpu.add_r(Reg::D);
    assert_eq!(cpu.get_a(), res);
    assert!(cpu.get_carry());
    assert!(cpu.get_overflow());
    assert!(!cpu.get_zero());
    assert!(!cpu.get_parity());
}

#[test]
fn test_adc_r() {
    let x: u8 = 0x11;
    let y: u8 = 0x11;
    let res = x + y + 1;
    let mut cpu = PP8085::new();
    cpu.set_carry(true);
    cpu.set_a(x);
    cpu.set_b(y);
    cpu.adc_r(Reg::B);
    assert_eq!(cpu.get_a(), res);
    assert!(!cpu.get_carry());
    assert!(!cpu.get_overflow());
    assert!(!cpu.get_zero());
    assert!(!cpu.get_parity());

    let x: u8 = 0x11;
    let y: u8 = 0x11;
    let res = x + y;
    let mut cpu = PP8085::new();
    cpu.set_a(x);
    cpu.set_c(y);
    cpu.adc_r(Reg::C);
    assert_eq!(cpu.get_a(), res);
    assert!(!cpu.get_carry());
    assert!(!cpu.get_overflow());
    assert!(!cpu.get_zero());
    assert!(cpu.get_parity());

    let x: u8 = 0xff;
    let y: u8 = 0xdd;
    let res = 0xdd;
    let mut cpu = PP8085::new();
    cpu.set_carry(true);
    cpu.set_a(x);
    cpu.set_d(y);
    cpu.adc_r(Reg::D);
    assert_eq!(cpu.get_a(), res);
    assert!(cpu.get_carry());
    assert!(cpu.get_overflow());
    assert!(!cpu.get_zero());
    assert!(cpu.get_parity());
}

#[test]
fn test_sub_r() {
    let x: u8 = 0x11;
    let y: u8 = 0x11;
    let res = x - y;
    let mut cpu = PP8085::new();
    cpu.set_a(x);
    cpu.set_b(y);
    cpu.sub_r(Reg::B);
    assert_eq!(cpu.get_a(), res);
    assert!(!cpu.get_carry());
    assert!(!cpu.get_overflow());
    assert!(cpu.get_zero());
    assert!(cpu.get_parity());

    let x: u8 = 0x01;
    let y: u8 = 0x03;
    let res = 0xfe;
    cpu.set_a(x);
    cpu.set_b(y);
    cpu.sub_r(Reg::B);
    assert_eq!(cpu.get_a(), res);
    assert!(cpu.get_carry());
    assert!(cpu.get_overflow());
    assert!(!cpu.get_zero());
    assert!(!cpu.get_parity());
}

#[test]
fn test_mov_rd_rs() {
    let mut cpu = PP8085::new();
    cpu.set_b(0x2a);
    cpu.mov_rr(Reg::A, Reg::B);
    assert_eq!(cpu.get_a(), 0x2a);
    assert_eq!(cpu.get_b(), 0x2a);
    cpu.mov_rr(Reg::D, Reg::B);
    assert_eq!(cpu.get_d(), 0x2a);
}

#[test]
fn test_ana_r() {
    let mut cpu = PP8085::new();
    cpu.set_a(0b01011100);
    cpu.set_b(0b00001000);
    cpu.ana_r(Reg::B);
    assert_eq!(cpu.get_a(), 0b00001000);
}

#[test]
fn test_xra_r() {
    let mut cpu = PP8085::new();
    cpu.set_a(0b01011100);
    cpu.set_b(0b00001000);
    cpu.xra_r(Reg::B);
    assert_eq!(cpu.get_a(), 0b01010100);
}

#[test]
fn test_ora_r() {
    let mut cpu = PP8085::new();
    cpu.set_a(0b01011100);
    cpu.set_b(0b00001000);
    cpu.ora_r(Reg::B);
    assert_eq!(cpu.get_a(), 0b01011100);
}

#[test]
fn test_cmp_r() {
    let mut cpu = PP8085::new();
    cpu.set_a(0x45);
    cpu.set_b(0x55);
    cpu.cmp_r(Reg::B);
    assert!(!cpu.get_carry());
    assert!(!cpu.get_zero());

    cpu.set_a(0x45);
    cpu.set_b(0x05);
    cpu.cmp_r(Reg::B);
    assert!(cpu.get_carry());
    assert!(!cpu.get_zero());

    cpu.set_a(0x45);
    cpu.set_b(0x45);
    cpu.cmp_r(Reg::B);
    assert!(!cpu.get_carry());
    assert!(cpu.get_zero());
}

#[test]
fn test_rlc() {
    let mut cpu = PP8085::new();
    cpu.set_a(0b11001010);
    cpu.rlc();
    assert_eq!(cpu.get_a(), 0b10010101);
    assert!(cpu.get_carry());

    cpu.set_a(0b01001010);
    cpu.rlc();
    assert_eq!(cpu.get_a(), 0b10010100);
    assert!(!cpu.get_carry());
}

#[test]
fn test_rrc() {
    let mut cpu = PP8085::new();
    cpu.set_a(0b11001010);
    cpu.rrc();
    assert_eq!(cpu.get_a(), 0b01100101);
    assert!(!cpu.get_carry());

    cpu.set_a(0b01001011);
    cpu.rrc();
    assert_eq!(cpu.get_a(), 0b10100101);
    assert!(cpu.get_carry());
}

#[test]
fn test_ral() {
    let mut cpu = PP8085::new();
    cpu.set_a(0b11001010);
    cpu.set_carry(false);
    cpu.ral();
    assert_eq!(cpu.get_a(), 0b10010100);
    assert!(cpu.get_carry());

    cpu.set_a(0b01001011);
    cpu.set_carry(true);
    cpu.ral();
    assert_eq!(cpu.get_a(), 0b10010111);
    assert!(!cpu.get_carry());
}

#[test]
fn test_rar() {
    let mut cpu = PP8085::new();
    cpu.set_a(0b11001010);
    cpu.set_carry(false);
    cpu.rar();
    assert_eq!(cpu.get_a(), 0b01100101);
    assert!(!cpu.get_carry());

    cpu.set_a(0b01001011);
    cpu.set_carry(true);
    cpu.rar();
    assert_eq!(cpu.get_a(), 0b10100101);
    assert!(cpu.get_carry());
}

#[test]
fn test_rst() {
    let mut cpu = PP8085::new();
    cpu.set_sp(0x19ff);
    cpu.set_pc(0x0102);
    let c = cpu.rst(1).unwrap();
    assert_eq!(c, 12);
    assert_eq!(cpu.get_pc(), 0x0008);
    assert_eq!(cpu.read_memory(cpu.get_sp()).unwrap(), 0x02);
    assert_eq!(cpu.read_memory(cpu.get_sp() + 1).unwrap(), 0x01);
}

#[test]
fn test_cond_call() {
    let mut cpu = PP8085::new();
    cpu.set_carry(true);
    cpu.set_sp(0x19ff);
    cpu.set_pc(0x0000);
    cpu.write_memory(0x0000, 0x22).unwrap();
    cpu.write_memory(0x0001, 0xaa).unwrap();
    let c = cpu.call_cond(Cond::C).unwrap();
    assert_eq!(c, 18);
    assert_eq!(cpu.get_pc(), 0xaa22);
    assert_eq!(cpu.read_memory(cpu.get_sp()).unwrap(), 0x02);
    assert_eq!(cpu.read_memory(cpu.get_sp() + 1).unwrap(), 0x00);

    cpu.set_carry(false);
    cpu.set_sp(0x19ff);
    cpu.set_pc(0x0000);
    let c = cpu.call_cond(Cond::C).unwrap();
    assert_eq!(c, 9);
    assert_eq!(cpu.get_pc(), 0x0002);
}

#[test]
fn test_cond_call_fn2() {
    let mut cpu = PP8085::new();
    cpu.set_carry(false);
    cpu.set_sp(0x19ff);
    cpu.set_pc(0x0000);
    cpu.write_memory(0x0000, 0x22).unwrap();
    cpu.write_memory(0x0001, 0xaa).unwrap();
    let c = cpu.call_cond(Cond::Nc).unwrap();
    assert_eq!(c, 18);
    assert_eq!(cpu.get_pc(), 0xaa22);
    assert_eq!(cpu.read_memory(cpu.get_sp()).unwrap(), 0x02);
    assert_eq!(cpu.read_memory(cpu.get_sp() + 1).unwrap(), 0x00);

    cpu.set_carry(true);
    cpu.set_sp(0x19ff);
    cpu.set_pc(0x0000);
    let c = cpu.call_cond(Cond::Nc).unwrap();
    assert_eq!(c, 9);
    assert_eq!(cpu.get_pc(), 0x0002);
}

#[test]
fn test_cond_ret() {
    let mut cpu = PP8085::new();
    cpu.set_carry(true);
    cpu.set_sp(0x19fd);
    cpu.set_pc(0x0000);
    cpu.write_memory(0x19fd, 0x02).unwrap();
    cpu.write_memory(0x19fe, 0xaa).unwrap();
    let c = cpu.ret_cond(Cond::C).unwrap();
    assert_eq!(c, 12);
    assert_eq!(cpu.get_pc(), 0xaa02);
    assert_eq!(cpu.get_sp(), 0x19ff);

    cpu.set_carry(false);
    cpu.set_sp(0x19fd);
    cpu.set_pc(0x0000);
    let c = cpu.ret_cond(Cond::C).unwrap();
    assert_eq!(c, 6);
    assert_eq!(cpu.get_pc(), 0x0000);
    assert_eq!(cpu.get_sp(), 0x19fd);
}

#[test]
fn test_cond_ret_fn2() {
    let mut cpu = PP8085::new();
    cpu.set_carry(false);
    cpu.set_sp(0x2000 - 2);
    cpu.set_pc(0x0000);
    cpu.write_memory(0x2000 - 2, 0x02).unwrap();
    cpu.write_memory(0x2000 - 1, 0x12).unwrap();
    let c = cpu.ret_cond(Cond::Nc).unwrap();
    assert_eq!(c, 12);
    assert_eq!(cpu.get_pc(), 0x1202);
    assert_eq!(cpu.get_sp(), 0x2000);

    cpu.set_carry(true);
    cpu.set_sp(0x19fd);
    cpu.set_pc(0x0000);
    let c = cpu.ret_cond(Cond::Nc).unwrap();
    assert_eq!(c, 6);
    assert_eq!(cpu.get_pc(), 0x0000);
    assert_eq!(cpu.get_sp(), 0x19fd);
}

#[test]
fn test_dad() {
    let mut cpu = PP8085::new();
    cpu.set_h(0x01);
    cpu.set_l(0x02);
    cpu.set_b(0x03);
    cpu.set_c(0x04);
    cpu.dad(RegPair::BC);
    assert_eq!(cpu.get_addr_hl(), 0x0406);
    assert!(!cpu.get_carry());

    cpu.set_h(0x00);
    cpu.set_l(0x02);
    cpu.set_b(0xff);
    cpu.set_c(0xff);
    cpu.dad(RegPair::BC);
    assert_eq!(cpu.get_addr_hl(), 0x0001);
    assert!(cpu.get_carry());
}

#[test]
fn test_io_connections() {
    let mut cpu = PP8085::new();
    cpu.add_io_port(0x05);
    cpu.write_io(0x05, 0xaf);
    assert_eq!(cpu.read_io(0x05), 0xaf);

    cpu.remove_io_port(0x05);
    cpu.write_io(0x05, 0xaf);
    assert_eq!(cpu.read_io(0x05), 0);
}

#[test]
fn test_in() {
    let mut cpu = PP8085::new();
    cpu.add_io_port(0x05);
    cpu.write_io(0x05, 0xaf);
    cpu.set_pc(0x000a);
    cpu.write_memory(0x000a, 0x05).unwrap();
    cpu.i_n().unwrap();
    assert_eq!(cpu.get_a(), 0xaf);
}

#[test]
fn test_out() {
    let mut cpu = PP8085::new();
    cpu.add_io_port(0x05);
    cpu.set_pc(0x000a);
    cpu.write_memory(0x000a, 0x05).unwrap();
    cpu.set_a(0xaf);
    cpu.out().unwrap();
    assert_eq!(cpu.read_io(0x05), 0xaf);
}

#[test]
fn test_inr() {
    let mut cpu = PP8085::new();
    cpu.set_b(0x00);
    for x in 0..0xff {
        assert_eq!(x, cpu.get_b());
        cpu.inr_r(Reg::B);
    }
    assert_eq!(cpu.get_b(), 0xff);
    cpu.inr_r(Reg::B);
    assert_eq!(cpu.get_b(), 0x00);
    assert!(cpu.get_overflow());
}

#[test]
fn test_dcr() {
    let mut cpu = PP8085::new();
    cpu.set_b(0xfe);
    for x in (0x00..0xff).rev() {
        assert_eq!(cpu.get_b(), x);
        cpu.dcr_r(Reg::B);
    }
    assert_eq!(cpu.get_b(), 0xff);
    assert!(cpu.get_overflow());
}

#[test]
fn test_memory_run() {
    let mut cpu = PP8085::new();
    let mut rom = Memory::new(8192);
    rom.write(0x0000, 0x3e); // mvi a
    rom.write(0x0001, 0x44);
    rom.write(0x0002, 0x16); // mvi d
    rom.write(0x0003, 0x32);
    rom.write(0x0004, 0x92); // sub d
    rom.write(0x0005, 0xd3); // out
    rom.write(0x0006, 0xdf);
    rom.write(0x0007, 0x76); // hlt
    cpu.load_memory(rom);
    cpu.add_io_port(0xdf);
    cpu.run().unwrap();
    println!("{}", cpu.get_summary());
    println!("{:#02x}", cpu.read_io(0xdf));
}
