use pp8085_lib::assembler::assemble;
use pp8085_lib::cpu::PP8085;
use pp8085_lib::memory::Memory;

fn assemble_and_run(src: &str, ports: &[u8]) -> PP8085 {
    let (bin, _listing) = assemble(src).unwrap();
    let rom = Memory::new_from(&bin, 8192);
    let mut cpu = PP8085::new();
    cpu.load_memory(rom);
    for p in ports {
        cpu.add_io_port(*p);
    }
    let _ = cpu.run();
    cpu
}

#[test]
fn scenario_sub_and_out() {
    let src = "MVI A, 44h\nMVI D, 32h\nSUB D\nOUT DFh\nHLT\n";
    let (bin, _listing) = assemble(src).unwrap();
    assert_eq!(bin, vec![0x3e, 0x44, 0x16, 0x32, 0x92, 0xd3, 0xdf, 0x76]);
    let cpu = assemble_and_run(src, &[0xdf]);
    assert_eq!(cpu.get_a(), 0x12);
    assert_eq!(cpu.read_io(0xdf), 0x12);
    assert!(cpu.get_hlt());
}

#[test]
fn scenario_inr_wraps() {
    let mut src = String::from("MVI B, 00h\n");
    for _ in 0..256 {
        src.push_str("INR B\n");
    }
    src.push_str("HLT\n");
    let cpu = assemble_and_run(&src, &[]);
    assert_eq!(cpu.get_b(), 0x00);
    assert_eq!(cpu.get_f() & 0x20, 0x20);
}

#[test]
fn scenario_dcr_wraps() {
    let mut src = String::from("MVI B, 0FEh\n");
    for _ in 0..255 {
        src.push_str("DCR B\n");
    }
    src.push_str("HLT\n");
    let cpu = assemble_and_run(&src, &[]);
    assert_eq!(cpu.get_b(), 0xff);
    assert_eq!(cpu.get_f() & 0x20, 0x20);
}

#[test]
fn scenario_dad_no_carry() {
    let cpu = assemble_and_run("LXI H, 0102h\nLXI B, 0304h\nDAD B\nHLT\n", &[]);
    assert_eq!(cpu.get_addr_hl(), 0x0406);
    assert!(!cpu.get_carry());
}

#[test]
fn scenario_dad_carry() {
    let cpu = assemble_and_run("LXI H, 0002h\nLXI B, 0FFFFh\nDAD B\nHLT\n", &[]);
    assert_eq!(cpu.get_addr_hl(), 0x0001);
    assert!(cpu.get_carry());
}

#[test]
fn scenario_push_pop_psw() {
    let cpu = assemble_and_run("LXI SP, 2000h\nMVI A, 0AAh\nPUSH PSW\nXRA A\nPOP PSW\nHLT\n", &[]);
    assert_eq!(cpu.get_a(), 0xaa);
    assert_eq!(cpu.get_sp(), 0x2000);
}

#[test]
fn scenario_call_ret() {
    let mut cpu = PP8085::new();
    let mut rom = Memory::new(8192);
    rom.write(0x0000, 0xcd); // call 1000h
    rom.write(0x0001, 0x00);
    rom.write(0x0002, 0x10);
    rom.write(0x0003, 0x76); // hlt
    rom.write(0x1000, 0xc9); // ret
    cpu.load_memory(rom);
    cpu.set_sp(0x2000);
    cpu.run().unwrap();
    assert_eq!(cpu.get_pc(), 0x0004);
    assert_eq!(cpu.get_sp(), 0x2000);
}

#[test]
fn scenario_label_resolution() {
    // PC after the JMP equals the label's pass-one address.
    let src = "JMP target\nMVI A, 01h\ntarget: HLT\n";
    let (bin, _) = assemble(src).unwrap();
    // jmp (3 bytes) + mvi a (2 bytes) puts the label at 0x0005.
    assert_eq!(bin, vec![0xc3, 0x05, 0x00, 0x3e, 0x01, 0x76]);
    let cpu = assemble_and_run(src, &[]);
    assert_eq!(cpu.get_a(), 0x00);
    assert_eq!(cpu.get_pc(), 0x0006);
    assert!(cpu.get_hlt());
}

#[test]
fn scenario_halt_latches_and_reset_clears() {
    let mut cpu = assemble_and_run("HLT\n", &[]);
    assert!(cpu.get_hlt());
    // A halted CPU does not step further.
    cpu.run_next().unwrap();
    assert_eq!(cpu.get_pc(), 0x0001);
    cpu.reset();
    assert!(!cpu.get_hlt());
    assert_eq!(cpu.get_pc(), 0x0000);
    assert_eq!(cpu.get_a(), 0x00);
}

#[test]
fn scenario_rotate_round_trip_all_bytes() {
    for x in 0..=255u8 {
        let mut cpu = PP8085::new();
        cpu.set_a(x);
        cpu.rlc();
        cpu.rrc();
        assert_eq!(cpu.get_a(), x);
        cpu.set_a(x);
        cpu.set_carry(true);
        cpu.ral();
        cpu.rar();
        assert_eq!(cpu.get_a(), x);
        assert!(cpu.get_carry());
    }
}

#[test]
fn scenario_adc_wrap_all_carries() {
    // ADC computes (a + b + cin) mod 256 with exact carry flags.
    let cases: [(u8, u8, bool); 4] = [(0xff, 0x01, false), (0xff, 0xff, true), (0x0f, 0x01, false), (0x12, 0x34, true)];
    for (a, b, cin) in cases {
        let mut cpu = PP8085::new();
        cpu.set_carry(cin);
        cpu.set_a(a);
        cpu.set_b(b);
        cpu.adc_r(pp8085_lib::model::Reg::B);
        let sum = a as u32 + b as u32 + cin as u32;
        assert_eq!(cpu.get_a(), (sum % 256) as u8);
        assert_eq!(cpu.get_carry(), sum >= 256);
        assert_eq!(
            cpu.get_auxiliary_carry(),
            (a & 0x0f) as u32 + (b & 0x0f) as u32 + cin as u32 >= 0x10
        );
    }
}
