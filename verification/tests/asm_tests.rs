use pp8085_lib::assembler::{assemble, AsmError};
use pp8085_lib::cpu::PP8085;
use pp8085_lib::model::EmuError;

#[test]
fn assemble_empty_source() {
    let (bin, listing) = assemble("").unwrap();
    assert!(bin.is_empty());
    assert!(listing.is_empty());
}

#[test]
fn assemble_listing_format() {
    let (_bin, listing) = assemble("MVI A, 44h\nMVI D, 32h\nSUB D\nOUT DFh\nHLT\n").unwrap();
    assert_eq!(
        listing,
        "0x0000\tmvi_a 0x44\n0x0002\tmvi_d 0x32\n0x0004\tsub_d\n0x0005\tout 0xdf\n0x0007\thlt\n"
    );
}

#[test]
fn assemble_two_byte_immediate_listing() {
    let (bin, listing) = assemble("LXI H, 1234h\n").unwrap();
    assert_eq!(bin, vec![0x21, 0x34, 0x12]);
    assert_eq!(listing, "0x0000\tlxi_h 0x1234\n");
}

#[test]
fn assemble_comments_and_commas() {
    let (bin, _) = assemble("mov a, b ; copies b\n; full comment line\nmov b,a\n").unwrap();
    assert_eq!(bin, vec![0x78, 0x47]);
}

#[test]
fn assemble_case_insensitive() {
    let (upper, _) = assemble("MoV A, M\nRsT 3\n").unwrap();
    let (lower, _) = assemble("mov a m\nrst 3\n").unwrap();
    assert_eq!(upper, lower);
    assert_eq!(upper, vec![0x7e, 0xdf]);
}

#[test]
fn assemble_hex_rule_beats_keywords() {
    // `bh` ends in the hex suffix, so it is the literal 0x0b, not
    // register B followed by something else.
    let (bin, _) = assemble("mvi a, bh\n").unwrap();
    assert_eq!(bin, vec![0x3e, 0x0b]);
}

#[test]
fn assemble_forward_and_backward_labels() {
    let src = "start: MVI A, 00h\nJMP done\nNOP\ndone: JMP start\nHLT\n";
    let (bin, _) = assemble(src).unwrap();
    // start = 0x0000, done = 0x0006.
    assert_eq!(bin, vec![0x3e, 0x00, 0xc3, 0x06, 0x00, 0x00, 0xc3, 0x00, 0x00, 0x76]);
}

#[test]
fn assemble_unknown_opcode_key() {
    // `mov m, m` is really the HLT encoding; the key has no entry.
    let e = assemble("mov m, m\n").unwrap_err();
    assert!(matches!(e, AsmError::UnknownOpcode(_)));
}

#[test]
fn assemble_unresolved_symbol() {
    let e = assemble("jmp nowhere\n").unwrap_err();
    assert!(matches!(e, AsmError::SymbolNotFound(_)));
}

#[test]
fn assemble_missing_operand() {
    let e = assemble("mov a\n").unwrap_err();
    assert!(matches!(e, AsmError::CannotComplete(_)));
}

#[test]
fn assemble_stray_data() {
    let e = assemble("44h\n").unwrap_err();
    assert!(matches!(e, AsmError::Syntax(_)));
}

#[test]
fn assemble_missing_immediate() {
    let e = assemble("mvi a\n").unwrap_err();
    assert!(matches!(e, AsmError::Syntax(_)));
}

#[test]
fn memory_fault_reported() {
    let mut cpu = PP8085::new();
    // The default memory is 8192 bytes.
    assert_eq!(cpu.read_memory(0x2000), Err(EmuError::MemoryOutOfRange(0x2000)));
    assert_eq!(cpu.write_memory(0xffff, 1), Err(EmuError::MemoryOutOfRange(0xffff)));
    assert!(cpu.read_memory(0x1fff).is_ok());
}

#[test]
fn undefined_opcode_faults() {
    let mut cpu = PP8085::new();
    cpu.write_memory(0x0000, 0x08).unwrap();
    assert_eq!(cpu.run_next(), Err(EmuError::UnimplementedOpcode(0x08)));
}

#[test]
fn summary_shows_registers() {
    let mut cpu = PP8085::new();
    cpu.set_a(0xab);
    cpu.set_sp(0x1234);
    let s = cpu.get_summary();
    assert!(s.contains("a : 0xab"));
    assert!(s.contains("sp: 0x1234"));
}

#[test]
fn io_port_latch() {
    let mut port = pp8085_lib::ioport::IoPort::new(0x42);
    assert_eq!(port.get_addr(), 0x42);
    assert_eq!(port.read(), 0);
    port.write(0x99);
    assert_eq!(port.read(), 0x99);
}

#[test]
fn memory_new_from_pads_with_zeros() {
    let image = vec![1u8, 2, 3];
    let mem = pp8085_lib::memory::Memory::new_from(&image, 16);
    assert_eq!(mem.size(), 16);
    assert_eq!(mem.read(0), 1);
    assert_eq!(mem.read(2), 3);
    assert_eq!(mem.read(3), 0);
    assert_eq!(mem.read(15), 0);
}

#[test]
fn opcode_table_samples() {
    // A few table entries checked against the datasheet encoding.
    let (bin, _) = assemble("nop\nmov b, c\nadd m\ncmp a\nrst 7\nin 10h\n").unwrap();
    assert_eq!(bin, vec![0x00, 0x41, 0x86, 0xbf, 0xff, 0xdb, 0x10]);
}

#[test]
fn listing_round_trip_no_immediates() {
    let (bin, listing) = assemble("nop\nmov a, b\nxchg\nhlt\n").unwrap();
    assert_eq!(pp8085_lib::assembler::parse_listing(&listing), Some(bin));
}

#[test]
fn listing_round_trip_immediates() {
    let src = "start: MVI A, 44h\nLXI H, 1234h\nADI 0FFh\nJMP start\nOUT 05h\nHLT\n";
    let (bin, listing) = assemble(src).unwrap();
    assert_eq!(pp8085_lib::assembler::parse_listing(&listing), Some(bin));
}

#[test]
fn listing_round_trip_every_family() {
    let src = "LXI SP, 2000h\nMVI B, 10h\nINR B\nDCR M\nDAD SP\nSTAX B\nLDAX D\nSTA 0100h\n\
               LHLD 0102h\nSHLD 0104h\nPUSH PSW\nPOP H\nXTHL\nSPHL\nPCHL\nRST 5\nCALL 0200h\n\
               RET\nRC\nCNZ 0300h\nJPO 0400h\nIN 01h\nOUT 02h\nEI\nDI\nRIM\nSIM\nDAA\nCMA\n\
               STC\nCMC\nRLC\nRRC\nRAL\nRAR\nADD M\nADC A\nSUB B\nSBB C\nANA D\nXRA E\nORA H\n\
               CMP L\nANI 0Fh\nXRI 0F0h\nORI 01h\nCPI 02h\nSUI 03h\nSBI 04h\nACI 05h\nHLT\n";
    let (bin, listing) = assemble(src).unwrap();
    assert_eq!(pp8085_lib::assembler::parse_listing(&listing), Some(bin));
}

#[test]
fn parse_listing_rejects_garbage() {
    assert_eq!(pp8085_lib::assembler::parse_listing("not a listing"), None);
    assert_eq!(pp8085_lib::assembler::parse_listing("0x0000\tnotakey\n"), None);
}
