//! The mathematical model of the 8085.
//!
//! [`CpuState`] is the abstract machine state: registers, flag byte,
//! program counter, stack pointer, memory contents and I/O latches.
//! [`spec_step`] gives the exact meaning of one fetch-decode-execute
//! cycle: either the successor state with the instruction's T-state
//! count, or the fault (out-of-range access, undefined opcode) that
//! stops the machine.  The executable CPU proves that each of its
//! handlers agrees with this model.

use vstd::prelude::*;

use crate::flags::{
    even_parity, flag_ac, flag_cy, flag_p, flag_s, flag_z, spec_set_mask, MASK_AC, MASK_CY,
    MASK_OV, MASK_P, MASK_S, MASK_Z,
};

verus! {

/// A fault that stops execution: the simulated program's semantics past
/// such an event are undefined.
#[derive(Clone, Copy, PartialEq, Eq, Structural, Debug)]
pub enum EmuError {
    /// A read or write touched an address at or past the configured
    /// memory size.
    MemoryOutOfRange(u16),
    /// The fetched opcode is one of the ten bytes the 8085 leaves
    /// undefined.
    UnimplementedOpcode(u8),
    /// The run loop spent its entire tick budget without reaching
    /// HLT.  The budget is 2^64 - 1 ticks, centuries of simulated
    /// time: the variant exists so that the run loop provably
    /// terminates, and no practical run returns it.
    StepLimit,
}

/// An 8-bit register name.
#[derive(Clone, Copy, PartialEq, Eq, Structural, Debug)]
pub enum Reg {
    B,
    C,
    D,
    E,
    H,
    L,
    A,
}

/// A register pair as used by LXI, INX, DCX and DAD.
#[derive(Clone, Copy, PartialEq, Eq, Structural, Debug)]
pub enum RegPair {
    BC,
    DE,
    HL,
    SP,
}

/// A register pair as used by PUSH and POP: PSW is A paired with F.
#[derive(Clone, Copy, PartialEq, Eq, Structural, Debug)]
pub enum StackPair {
    BC,
    DE,
    HL,
    PSW,
}

/// A branch condition, in opcode encoding order.
#[derive(Clone, Copy, PartialEq, Eq, Structural, Debug)]
pub enum Cond {
    Nz,
    Z,
    Nc,
    C,
    Po,
    Pe,
    P,
    M,
}

/// The abstract state of the machine.
#[verifier::ext_equal]
pub ghost struct CpuState {
    pub ir: u8,
    pub a: u8,
    pub f: u8,
    pub b: u8,
    pub c: u8,
    pub d: u8,
    pub e: u8,
    pub h: u8,
    pub l: u8,
    pub pc: u16,
    pub sp: u16,
    pub mem: Seq<u8>,
    pub ports: Map<u8, u8>,
    pub ie: bool,
    pub hlt: bool,
}

/// The 16-bit word with high byte `hi` and low byte `lo`.
pub open spec fn word(hi: u8, lo: u8) -> u16 {
    (((hi as u16) << 8) | (lo as u16)) as u16
}

/// The high byte of `w`.
pub open spec fn hi8(w: u16) -> u8 {
    (w >> 8) as u8
}

/// The low byte of `w`.
pub open spec fn lo8(w: u16) -> u8 {
    (w & 0xff) as u8
}

/// `x + 1` modulo 65536.
pub open spec fn wrap_inc16(x: u16) -> u16 {
    if x == 0xffff {
        0
    } else {
        (x + 1) as u16
    }
}

/// `x - 1` modulo 65536.
pub open spec fn wrap_dec16(x: u16) -> u16 {
    if x == 0 {
        0xffff
    } else {
        (x - 1) as u16
    }
}

/// Reads the register `r`.
pub open spec fn get_reg(s: CpuState, r: Reg) -> u8 {
    match r {
        Reg::B => s.b,
        Reg::C => s.c,
        Reg::D => s.d,
        Reg::E => s.e,
        Reg::H => s.h,
        Reg::L => s.l,
        Reg::A => s.a,
    }
}

/// Replaces the register `r`.
pub open spec fn set_reg(s: CpuState, r: Reg, v: u8) -> CpuState {
    match r {
        Reg::B => CpuState { b: v, ..s },
        Reg::C => CpuState { c: v, ..s },
        Reg::D => CpuState { d: v, ..s },
        Reg::E => CpuState { e: v, ..s },
        Reg::H => CpuState { h: v, ..s },
        Reg::L => CpuState { l: v, ..s },
        Reg::A => CpuState { a: v, ..s },
    }
}

/// The register selected by a 3-bit opcode field; field 6 names memory
/// and must be handled before this map is consulted.
pub open spec fn reg_of_code(c: u8) -> Reg {
    if c == 0 {
        Reg::B
    } else if c == 1 {
        Reg::C
    } else if c == 2 {
        Reg::D
    } else if c == 3 {
        Reg::E
    } else if c == 4 {
        Reg::H
    } else if c == 5 {
        Reg::L
    } else {
        Reg::A
    }
}

/// The 3-bit opcode field that selects register `r`.
pub open spec fn code_of_reg(r: Reg) -> u8 {
    match r {
        Reg::B => 0,
        Reg::C => 1,
        Reg::D => 2,
        Reg::E => 3,
        Reg::H => 4,
        Reg::L => 5,
        Reg::A => 7,
    }
}

/// The register pair selected by a 2-bit opcode field.
pub open spec fn pair_of_code(c: u8) -> RegPair {
    if c == 0 {
        RegPair::BC
    } else if c == 1 {
        RegPair::DE
    } else if c == 2 {
        RegPair::HL
    } else {
        RegPair::SP
    }
}

/// The push/pop pair selected by a 2-bit opcode field.
pub open spec fn stack_pair_of_code(c: u8) -> StackPair {
    if c == 0 {
        StackPair::BC
    } else if c == 1 {
        StackPair::DE
    } else if c == 2 {
        StackPair::HL
    } else {
        StackPair::PSW
    }
}

/// The branch condition selected by a 3-bit opcode field.
pub open spec fn cond_of_code(c: u8) -> Cond {
    if c == 0 {
        Cond::Nz
    } else if c == 1 {
        Cond::Z
    } else if c == 2 {
        Cond::Nc
    } else if c == 3 {
        Cond::C
    } else if c == 4 {
        Cond::Po
    } else if c == 5 {
        Cond::Pe
    } else if c == 6 {
        Cond::P
    } else {
        Cond::M
    }
}

/// Reads the register pair `p`.
pub open spec fn get_pair(s: CpuState, p: RegPair) -> u16 {
    match p {
        RegPair::BC => word(s.b, s.c),
        RegPair::DE => word(s.d, s.e),
        RegPair::HL => word(s.h, s.l),
        RegPair::SP => s.sp,
    }
}

/// Replaces the register pair `p`.
pub open spec fn set_pair(s: CpuState, p: RegPair, v: u16) -> CpuState {
    match p {
        RegPair::BC => CpuState { b: hi8(v), c: lo8(v), ..s },
        RegPair::DE => CpuState { d: hi8(v), e: lo8(v), ..s },
        RegPair::HL => CpuState { h: hi8(v), l: lo8(v), ..s },
        RegPair::SP => CpuState { sp: v, ..s },
    }
}

/// The high byte pushed for the pair `p`: PSW pushes A high.
pub open spec fn stack_hi(s: CpuState, p: StackPair) -> u8 {
    match p {
        StackPair::BC => s.b,
        StackPair::DE => s.d,
        StackPair::HL => s.h,
        StackPair::PSW => s.a,
    }
}

/// The low byte pushed for the pair `p`: PSW pushes F low.
pub open spec fn stack_lo(s: CpuState, p: StackPair) -> u8 {
    match p {
        StackPair::BC => s.c,
        StackPair::DE => s.e,
        StackPair::HL => s.l,
        StackPair::PSW => s.f,
    }
}

/// Replaces the pair `p` with high byte `hi` and low byte `lo`.
pub open spec fn set_stack_pair(s: CpuState, p: StackPair, hi: u8, lo: u8) -> CpuState {
    match p {
        StackPair::BC => CpuState { b: hi, c: lo, ..s },
        StackPair::DE => CpuState { d: hi, e: lo, ..s },
        StackPair::HL => CpuState { h: hi, l: lo, ..s },
        StackPair::PSW => CpuState { a: hi, f: lo, ..s },
    }
}

/// Whether the branch condition `c` holds of the flag byte.
pub open spec fn cond_holds(s: CpuState, c: Cond) -> bool {
    match c {
        Cond::Nz => !flag_z(s.f),
        Cond::Z => flag_z(s.f),
        Cond::Nc => !flag_cy(s.f),
        Cond::C => flag_cy(s.f),
        Cond::Po => !flag_p(s.f),
        Cond::Pe => flag_p(s.f),
        Cond::P => !flag_s(s.f),
        Cond::M => flag_s(s.f),
    }
}

// ------------------------------------------------------------------
// Flag and ALU cores
// ------------------------------------------------------------------

/// The flag byte with S, Z and P set from the result `r`.
pub open spec fn flags_szp(f: u8, r: u8) -> u8 {
    spec_set_mask(
        spec_set_mask(spec_set_mask(f, MASK_S, r & 0x80 != 0), MASK_Z, r == 0),
        MASK_P,
        even_parity(r),
    )
}

/// Addition `a + b + cin`: result modulo 256; CY and the overflow
/// witnesses exactly when the sum reaches 256; AC when the low nibbles
/// and carry-in reach 0x10; S, Z, P from the result.
pub open spec fn alu_add(a: u8, b: u8, cin: u8, f: u8) -> (u8, u8) {
    let r = ((a + b + cin) % 256) as u8;
    let cy = a + b + cin >= 256;
    let ac = (a & 0x0f) + (b & 0x0f) + cin >= 0x10;
    (
        r,
        spec_set_mask(
            spec_set_mask(spec_set_mask(flags_szp(f, r), MASK_AC, ac), MASK_CY, cy),
            MASK_OV,
            cy,
        ),
    )
}

/// Subtraction `a - b - cin`: result modulo 256; CY and the overflow
/// witnesses exactly on borrow; AC when the low nibble of `a` is less
/// than the low nibble of `b` plus the borrow-in; S, Z, P from the
/// result.
pub open spec fn alu_sub(a: u8, b: u8, cin: u8, f: u8) -> (u8, u8) {
    let r = ((a + 256 - b - cin) % 256) as u8;
    let cy = (a as int) < b + cin;
    let ac = (a & 0x0f) < (b & 0x0f) + cin;
    (
        r,
        spec_set_mask(
            spec_set_mask(spec_set_mask(flags_szp(f, r), MASK_AC, ac), MASK_CY, cy),
            MASK_OV,
            cy,
        ),
    )
}

/// Bitwise AND: S, Z, P from the result, other flags untouched.
pub open spec fn alu_ana(a: u8, b: u8, f: u8) -> (u8, u8) {
    ((a & b), flags_szp(f, (a & b)))
}

/// Bitwise XOR: S, Z, P from the result, other flags untouched.
pub open spec fn alu_xra(a: u8, b: u8, f: u8) -> (u8, u8) {
    ((a ^ b), flags_szp(f, (a ^ b)))
}

/// Bitwise OR: S, Z, P from the result, other flags untouched.
pub open spec fn alu_ora(a: u8, b: u8, f: u8) -> (u8, u8) {
    ((a | b), flags_szp(f, (a | b)))
}

/// Comparison of `b` against the accumulator `a`: writes only CY
/// (operand below A) and Z (operand equal to A); A keeps its value.
pub open spec fn cmp_flags(f: u8, b: u8, a: u8) -> u8 {
    spec_set_mask(spec_set_mask(f, MASK_CY, (b as int) < a), MASK_Z, b == a)
}

/// Increment by one: result modulo 256; S, Z, AC, P and the overflow
/// witnesses (set exactly on wrap to zero) change, CY does not.
pub open spec fn inr_core(x: u8, f: u8) -> (u8, u8) {
    let r = ((x + 1) % 256) as u8;
    (
        r,
        spec_set_mask(
            spec_set_mask(flags_szp(f, r), MASK_AC, x & 0x0f == 0x0f),
            MASK_OV,
            r == 0,
        ),
    )
}

/// Decrement by one: result modulo 256; S, Z, AC, P and the overflow
/// witnesses (set exactly on wrap to 0xff) change, CY does not.
pub open spec fn dcr_core(x: u8, f: u8) -> (u8, u8) {
    let r = ((x + 255) % 256) as u8;
    (
        r,
        spec_set_mask(
            spec_set_mask(flags_szp(f, r), MASK_AC, x & 0x0f == 0),
            MASK_OV,
            r == 0xff,
        ),
    )
}

/// 16-bit add into HL: result modulo 65536; CY and the overflow
/// witnesses exactly when the sum reaches 65536; no other flag moves.
pub open spec fn dad_core(hl: u16, rp: u16, f: u8) -> (u16, u8) {
    let sum = hl + rp;
    let r = ((hl + rp) % 0x10000) as u16;
    let cy = sum >= 0x10000;
    (r, spec_set_mask(spec_set_mask(f, MASK_CY, cy), MASK_OV, cy))
}

/// Rotate A left into itself: bit 7 becomes both bit 0 and CY.
pub open spec fn rlc_core(a: u8, f: u8) -> (u8, u8) {
    (((a << 1) | (a >> 7)) as u8, spec_set_mask(f, MASK_CY, a & 0x80 != 0))
}

/// Rotate A right into itself: bit 0 becomes both bit 7 and CY.
pub open spec fn rrc_core(a: u8, f: u8) -> (u8, u8) {
    (((a >> 1) | (a << 7)) as u8, spec_set_mask(f, MASK_CY, a & 1 != 0))
}

/// Rotate A left through CY: bit 0 takes the old CY, CY takes bit 7.
pub open spec fn ral_core(a: u8, f: u8) -> (u8, u8) {
    (
        ((a << 1) | (if flag_cy(f) {
            1u8
        } else {
            0u8
        })) as u8,
        spec_set_mask(f, MASK_CY, a & 0x80 != 0),
    )
}

/// Rotate A right through CY: bit 7 takes the old CY, CY takes bit 0.
pub open spec fn rar_core(a: u8, f: u8) -> (u8, u8) {
    (
        ((a >> 1) | (if flag_cy(f) {
            0x80u8
        } else {
            0u8
        })) as u8,
        spec_set_mask(f, MASK_CY, a & 1 != 0),
    )
}

/// Decimal adjust toward packed BCD: add 0x06 when the low nibble
/// exceeds 9 or AC is set, then 0x60 when the high nibble of the
/// adjusted value exceeds 9 or CY is set; a carry out of either
/// addition sets CY and the overflow witnesses.
pub open spec fn daa_core(a: u8, f: u8) -> (u8, u8) {
    let t1 = a + (if a & 0x0f > 0x09 || flag_ac(f) {
        0x06int
    } else {
        0x00int
    });
    let r1 = (t1 % 256) as u8;
    let t2 = r1 + (if r1 & 0xf0 > 0x90 || flag_cy(f) {
        0x60int
    } else {
        0x00int
    });
    let r = (t2 % 256) as u8;
    if t1 >= 256 || t2 >= 256 {
        (r, spec_set_mask(spec_set_mask(f, MASK_CY, true), MASK_OV, true))
    } else {
        (r, f)
    }
}

// ------------------------------------------------------------------
// Memory, I/O and control-flow steps
// ------------------------------------------------------------------

/// The byte at `addr`, or the fault when the address is out of range.
pub open spec fn spec_read_mem(s: CpuState, addr: u16) -> Result<u8, EmuError> {
    if addr < s.mem.len() {
        Ok(s.mem[addr as int])
    } else {
        Err(EmuError::MemoryOutOfRange(addr))
    }
}

/// The state with `v` stored at `addr`, or the fault.
pub open spec fn spec_write_mem(s: CpuState, addr: u16, v: u8) -> Result<CpuState, EmuError> {
    if addr < s.mem.len() {
        Ok(CpuState { mem: s.mem.update(addr as int, v), ..s })
    } else {
        Err(EmuError::MemoryOutOfRange(addr))
    }
}

/// The latch at `addr`, or 0 when no port is mapped there.
pub open spec fn spec_read_io(s: CpuState, addr: u8) -> u8 {
    if s.ports.contains_key(addr) {
        s.ports[addr]
    } else {
        0
    }
}

/// The state with `v` latched at `addr`; a write to an unmapped port
/// is dropped.
pub open spec fn spec_write_io(s: CpuState, addr: u8, v: u8) -> CpuState {
    if s.ports.contains_key(addr) {
        CpuState { ports: s.ports.insert(addr, v), ..s }
    } else {
        s
    }
}

/// Consumes the byte at PC and advances PC modulo 65536.
pub open spec fn spec_fetch8(s: CpuState) -> Result<(CpuState, u8), EmuError> {
    match spec_read_mem(s, s.pc) {
        Ok(v) => Ok((CpuState { pc: wrap_inc16(s.pc), ..s }, v)),
        Err(e) => Err(e),
    }
}

/// Consumes two bytes at PC, low byte first.
pub open spec fn spec_fetch16(s: CpuState) -> Result<(CpuState, u8, u8), EmuError> {
    match spec_fetch8(s) {
        Ok((s1, lo)) => match spec_fetch8(s1) {
            Ok((s2, hi)) => Ok((s2, lo, hi)),
            Err(e) => Err(e),
        },
        Err(e) => Err(e),
    }
}

/// Pushes `hi` then `lo`: SP-1 takes the high byte, SP-2 the low byte,
/// and SP ends two lower, all modulo 65536.
pub open spec fn spec_push(s: CpuState, hi: u8, lo: u8) -> Result<CpuState, EmuError> {
    let sp1 = wrap_dec16(s.sp);
    match spec_write_mem(s, sp1, hi) {
        Ok(s1) => {
            let sp2 = wrap_dec16(sp1);
            match spec_write_mem(s1, sp2, lo) {
                Ok(s2) => Ok(CpuState { sp: sp2, ..s2 }),
                Err(e) => Err(e),
            }
        },
        Err(e) => Err(e),
    }
}

/// Pops the low byte at SP and the high byte at SP+1; SP ends two
/// higher, all modulo 65536.
pub open spec fn spec_pop(s: CpuState) -> Result<(CpuState, u8, u8), EmuError> {
    match spec_read_mem(s, s.sp) {
        Ok(lo) => {
            let sp1 = wrap_inc16(s.sp);
            match spec_read_mem(s, sp1) {
                Ok(hi) => Ok((CpuState { sp: wrap_inc16(sp1), ..s }, lo, hi)),
                Err(e) => Err(e),
            }
        },
        Err(e) => Err(e),
    }
}

// ------------------------------------------------------------------
// One instruction
// ------------------------------------------------------------------

/// A successful step: the successor state and the instruction's
/// T-state count.
pub type StepOk = (CpuState, u8);

/// How an executed handler must relate to its model: on a modeled
/// success the handler returns the same T-state count and moves the
/// machine to the modeled state; on a modeled fault it returns that
/// fault, and the machine's state is not specified further.
pub open spec fn step_outcome(
    post: CpuState,
    r: Result<u8, EmuError>,
    modeled: Result<StepOk, EmuError>,
) -> bool {
    match modeled {
        Ok((s2, t)) => r == Ok::<u8, EmuError>(t) && post == s2,
        Err(e) => r == Err::<u8, EmuError>(e),
    }
}

/// MOV: register or memory source to register or memory destination;
/// field 6 names the byte at HL.
pub open spec fn spec_mov(s: CpuState, dd: u8, ss: u8) -> Result<StepOk, EmuError> {
    if ss == 6 {
        match spec_read_mem(s, word(s.h, s.l)) {
            Ok(v) => Ok((set_reg(s, reg_of_code(dd), v), 7)),
            Err(e) => Err(e),
        }
    } else if dd == 6 {
        match spec_write_mem(s, word(s.h, s.l), get_reg(s, reg_of_code(ss))) {
            Ok(s1) => Ok((s1, 7)),
            Err(e) => Err(e),
        }
    } else {
        Ok((set_reg(s, reg_of_code(dd), get_reg(s, reg_of_code(ss))), 4))
    }
}

/// The accumulator and flag byte after ALU family `fam` (ADD, ADC,
/// SUB, SBB, ANA, XRA, ORA, CMP in encoding order) applied to operand
/// `v`.
pub open spec fn alu_apply(s: CpuState, fam: u8, v: u8) -> CpuState {
    let cin: u8 = if flag_cy(s.f) {
        1
    } else {
        0
    };
    if fam == 0 {
        let (r, f) = alu_add(s.a, v, 0, s.f);
        CpuState { a: r, f: f, ..s }
    } else if fam == 1 {
        let (r, f) = alu_add(s.a, v, cin, s.f);
        CpuState { a: r, f: f, ..s }
    } else if fam == 2 {
        let (r, f) = alu_sub(s.a, v, 0, s.f);
        CpuState { a: r, f: f, ..s }
    } else if fam == 3 {
        let (r, f) = alu_sub(s.a, v, cin, s.f);
        CpuState { a: r, f: f, ..s }
    } else if fam == 4 {
        let (r, f) = alu_ana(s.a, v, s.f);
        CpuState { a: r, f: f, ..s }
    } else if fam == 5 {
        let (r, f) = alu_xra(s.a, v, s.f);
        CpuState { a: r, f: f, ..s }
    } else if fam == 6 {
        let (r, f) = alu_ora(s.a, v, s.f);
        CpuState { a: r, f: f, ..s }
    } else {
        CpuState { f: cmp_flags(s.f, v, s.a), ..s }
    }
}

/// An ALU instruction with a register or memory operand (opcodes
/// 0x80 to 0xbf).
pub open spec fn spec_alu_op(s: CpuState, fam: u8, ss: u8) -> Result<StepOk, EmuError> {
    if ss == 6 {
        match spec_read_mem(s, word(s.h, s.l)) {
            Ok(v) => Ok((alu_apply(s, fam, v), 7)),
            Err(e) => Err(e),
        }
    } else {
        Ok((alu_apply(s, fam, get_reg(s, reg_of_code(ss))), 4))
    }
}

/// An ALU instruction with an immediate operand (ADI, ACI, SUI, SBI,
/// ANI, XRI, ORI, CPI).
pub open spec fn spec_alu_imm(s: CpuState, fam: u8) -> Result<StepOk, EmuError> {
    match spec_fetch8(s) {
        Ok((s1, v)) => Ok((alu_apply(s1, fam, v), 7)),
        Err(e) => Err(e),
    }
}

/// INR: increment a register or the byte at HL.
pub open spec fn spec_inr(s: CpuState, dd: u8) -> Result<StepOk, EmuError> {
    if dd == 6 {
        match spec_read_mem(s, word(s.h, s.l)) {
            Ok(v) => {
                let (r, f) = inr_core(v, s.f);
                match spec_write_mem(s, word(s.h, s.l), r) {
                    Ok(s1) => Ok((CpuState { f: f, ..s1 }, 10)),
                    Err(e) => Err(e),
                }
            },
            Err(e) => Err(e),
        }
    } else {
        let (r, f) = inr_core(get_reg(s, reg_of_code(dd)), s.f);
        Ok((CpuState { f: f, ..set_reg(s, reg_of_code(dd), r) }, 4))
    }
}

/// DCR: decrement a register or the byte at HL.
pub open spec fn spec_dcr(s: CpuState, dd: u8) -> Result<StepOk, EmuError> {
    if dd == 6 {
        match spec_read_mem(s, word(s.h, s.l)) {
            Ok(v) => {
                let (r, f) = dcr_core(v, s.f);
                match spec_write_mem(s, word(s.h, s.l), r) {
                    Ok(s1) => Ok((CpuState { f: f, ..s1 }, 10)),
                    Err(e) => Err(e),
                }
            },
            Err(e) => Err(e),
        }
    } else {
        let (r, f) = dcr_core(get_reg(s, reg_of_code(dd)), s.f);
        Ok((CpuState { f: f, ..set_reg(s, reg_of_code(dd), r) }, 4))
    }
}

/// MVI: an immediate byte into a register or the byte at HL.
pub open spec fn spec_mvi(s: CpuState, dd: u8) -> Result<StepOk, EmuError> {
    match spec_fetch8(s) {
        Ok((s1, v)) => {
            if dd == 6 {
                match spec_write_mem(s1, word(s1.h, s1.l), v) {
                    Ok(s2) => Ok((s2, 10)),
                    Err(e) => Err(e),
                }
            } else {
                Ok((set_reg(s1, reg_of_code(dd), v), 7))
            }
        },
        Err(e) => Err(e),
    }
}

/// LXI: a 16-bit immediate into a register pair.
pub open spec fn spec_lxi(s: CpuState, p: RegPair) -> Result<StepOk, EmuError> {
    match spec_fetch16(s) {
        Ok((s1, lo, hi)) => Ok((set_pair(s1, p, word(hi, lo)), 10)),
        Err(e) => Err(e),
    }
}

/// INX or DCX: the pair wraps modulo 65536; a wrap sets both overflow
/// witnesses and no other flag moves.
pub open spec fn spec_inx_dcx(s: CpuState, p: RegPair, up: bool) -> Result<StepOk, EmuError> {
    let v = get_pair(s, p);
    let wraps = if up {
        v == 0xffff
    } else {
        v == 0
    };
    let v2 = if up {
        wrap_inc16(v)
    } else {
        wrap_dec16(v)
    };
    let s1 = set_pair(s, p, v2);
    if wraps {
        Ok((CpuState { f: (s.f | MASK_OV) as u8, ..s1 }, 6))
    } else {
        Ok((s1, 6))
    }
}

/// DAD: 16-bit add of a pair into HL.
pub open spec fn spec_dad(s: CpuState, p: RegPair) -> Result<StepOk, EmuError> {
    let (r, f) = dad_core(word(s.h, s.l), get_pair(s, p), s.f);
    Ok((CpuState { h: hi8(r), l: lo8(r), f: f, ..s }, 10))
}

/// STAX: the accumulator into the byte addressed by BC or DE.
pub open spec fn spec_stax(s: CpuState, addr: u16) -> Result<StepOk, EmuError> {
    match spec_write_mem(s, addr, s.a) {
        Ok(s1) => Ok((s1, 7)),
        Err(e) => Err(e),
    }
}

/// LDAX: the byte addressed by BC or DE into the accumulator.
pub open spec fn spec_ldax(s: CpuState, addr: u16) -> Result<StepOk, EmuError> {
    match spec_read_mem(s, addr) {
        Ok(v) => Ok((CpuState { a: v, ..s }, 7)),
        Err(e) => Err(e),
    }
}

/// STA: the accumulator into a direct 16-bit address.
pub open spec fn spec_sta(s: CpuState) -> Result<StepOk, EmuError> {
    match spec_fetch16(s) {
        Ok((s1, lo, hi)) => match spec_write_mem(s1, word(hi, lo), s1.a) {
            Ok(s2) => Ok((s2, 13)),
            Err(e) => Err(e),
        },
        Err(e) => Err(e),
    }
}

/// LDA: the byte at a direct 16-bit address into the accumulator.
pub open spec fn spec_lda(s: CpuState) -> Result<StepOk, EmuError> {
    match spec_fetch16(s) {
        Ok((s1, lo, hi)) => match spec_read_mem(s1, word(hi, lo)) {
            Ok(v) => Ok((CpuState { a: v, ..s1 }, 13)),
            Err(e) => Err(e),
        },
        Err(e) => Err(e),
    }
}

/// SHLD: L into the direct address, H into the next one.
pub open spec fn spec_shld(s: CpuState) -> Result<StepOk, EmuError> {
    match spec_fetch16(s) {
        Ok((s1, lo, hi)) => match spec_write_mem(s1, word(hi, lo), s1.l) {
            Ok(s2) => match spec_write_mem(s2, wrap_inc16(word(hi, lo)), s2.h) {
                Ok(s3) => Ok((s3, 16)),
                Err(e) => Err(e),
            },
            Err(e) => Err(e),
        },
        Err(e) => Err(e),
    }
}

/// LHLD: the direct address into L, the next byte into H.
pub open spec fn spec_lhld(s: CpuState) -> Result<StepOk, EmuError> {
    match spec_fetch16(s) {
        Ok((s1, lo, hi)) => match spec_read_mem(s1, word(hi, lo)) {
            Ok(vl) => match spec_read_mem(s1, wrap_inc16(word(hi, lo))) {
                Ok(vh) => Ok((CpuState { h: vh, l: vl, ..s1 }, 16)),
                Err(e) => Err(e),
            },
            Err(e) => Err(e),
        },
        Err(e) => Err(e),
    }
}

/// PUSH: the pair onto the stack.
pub open spec fn spec_push_op(s: CpuState, p: StackPair) -> Result<StepOk, EmuError> {
    match spec_push(s, stack_hi(s, p), stack_lo(s, p)) {
        Ok(s1) => Ok((s1, 12)),
        Err(e) => Err(e),
    }
}

/// POP: two stack bytes into the pair.
pub open spec fn spec_pop_op(s: CpuState, p: StackPair) -> Result<StepOk, EmuError> {
    match spec_pop(s) {
        Ok((s1, lo, hi)) => Ok((set_stack_pair(s1, p, hi, lo), 10)),
        Err(e) => Err(e),
    }
}

/// XTHL: exchanges HL with the two bytes at the stack top.
pub open spec fn spec_xthl(s: CpuState) -> Result<StepOk, EmuError> {
    match spec_read_mem(s, s.sp) {
        Ok(tl) => match spec_read_mem(s, wrap_inc16(s.sp)) {
            Ok(th) => match spec_write_mem(s, s.sp, s.l) {
                Ok(s1) => match spec_write_mem(s1, wrap_inc16(s.sp), s.h) {
                    Ok(s2) => Ok((CpuState { h: th, l: tl, ..s2 }, 16)),
                    Err(e) => Err(e),
                },
                Err(e) => Err(e),
            },
            Err(e) => Err(e),
        },
        Err(e) => Err(e),
    }
}

/// JMP and the conditional jumps: the two address bytes are consumed
/// either way; the taken branch costs 10 T-states, the declined one 7.
pub open spec fn spec_jump(s: CpuState, taken: bool) -> Result<StepOk, EmuError> {
    match spec_fetch16(s) {
        Ok((s1, lo, hi)) => {
            if taken {
                Ok((CpuState { pc: word(hi, lo), ..s1 }, 10))
            } else {
                Ok((s1, 7))
            }
        },
        Err(e) => Err(e),
    }
}

/// CALL and the conditional calls: the return address (PC past the two
/// address bytes) goes onto the stack and PC takes the target.
pub open spec fn spec_call(s: CpuState, taken: bool) -> Result<StepOk, EmuError> {
    match spec_fetch16(s) {
        Ok((s1, lo, hi)) => {
            if taken {
                match spec_push(s1, hi8(s1.pc), lo8(s1.pc)) {
                    Ok(s2) => Ok((CpuState { pc: word(hi, lo), ..s2 }, 18)),
                    Err(e) => Err(e),
                }
            } else {
                Ok((s1, 9))
            }
        },
        Err(e) => Err(e),
    }
}

/// RET and the conditional returns: two stack bytes into PC.
pub open spec fn spec_ret(s: CpuState, taken: bool, t_taken: u8, t_not: u8) -> Result<
    StepOk,
    EmuError,
> {
    if taken {
        match spec_pop(s) {
            Ok((s1, lo, hi)) => Ok((CpuState { pc: word(hi, lo), ..s1 }, t_taken)),
            Err(e) => Err(e),
        }
    } else {
        Ok((s, t_not))
    }
}

/// RST n: pushes PC and jumps to 8 times n.
pub open spec fn spec_rst(s: CpuState, n: u8) -> Result<StepOk, EmuError> {
    match spec_push(s, hi8(s.pc), lo8(s.pc)) {
        Ok(s1) => Ok((CpuState { pc: (8 * n) as u16, ..s1 }, 12)),
        Err(e) => Err(e),
    }
}

/// IN: the immediate port address's latch into the accumulator.
pub open spec fn spec_in(s: CpuState) -> Result<StepOk, EmuError> {
    match spec_fetch8(s) {
        Ok((s1, addr)) => Ok((CpuState { a: spec_read_io(s1, addr), ..s1 }, 10)),
        Err(e) => Err(e),
    }
}

/// OUT: the accumulator into the immediate port address's latch.
pub open spec fn spec_out(s: CpuState) -> Result<StepOk, EmuError> {
    match spec_fetch8(s) {
        Ok((s1, addr)) => Ok((spec_write_io(s1, addr, s1.a), 10)),
        Err(e) => Err(e),
    }
}

// ------------------------------------------------------------------
// Decode
// ------------------------------------------------------------------

/// The ten opcode bytes the 8085 leaves undefined.
pub open spec fn undefined_opcode(op: u8) -> bool {
    op == 0x08 || op == 0x10 || op == 0x18 || op == 0x28 || op == 0x38 || op == 0xcb || op == 0xd9
        || op == 0xdd || op == 0xed || op == 0xfd
}

/// Opcodes 0x00 to 0x3f: moves, pair arithmetic, rotates and the
/// accumulator specials.
pub open spec fn spec_exec_low(s: CpuState, op: u8) -> Result<StepOk, EmuError> {
    let low3 = op & 7;
    let pair = pair_of_code((op >> 4) & 3);
    let dd = (op >> 3) & 7;
    if low3 == 0 {
        if op == 0x00 || op == 0x20 || op == 0x30 {
            // NOP; RIM and SIM are recognized but change no state.
            Ok((s, 4))
        } else {
            Err(EmuError::UnimplementedOpcode(op))
        }
    } else if low3 == 1 {
        if op & 8 == 0 {
            spec_lxi(s, pair)
        } else {
            spec_dad(s, pair)
        }
    } else if low3 == 2 {
        if op == 0x02 {
            spec_stax(s, word(s.b, s.c))
        } else if op == 0x12 {
            spec_stax(s, word(s.d, s.e))
        } else if op == 0x22 {
            spec_shld(s)
        } else if op == 0x32 {
            spec_sta(s)
        } else if op == 0x0a {
            spec_ldax(s, word(s.b, s.c))
        } else if op == 0x1a {
            spec_ldax(s, word(s.d, s.e))
        } else if op == 0x2a {
            spec_lhld(s)
        } else {
            spec_lda(s)
        }
    } else if low3 == 3 {
        spec_inx_dcx(s, pair, op & 8 == 0)
    } else if low3 == 4 {
        spec_inr(s, dd)
    } else if low3 == 5 {
        spec_dcr(s, dd)
    } else if low3 == 6 {
        spec_mvi(s, dd)
    } else {
        if op == 0x07 {
            let (a, f) = rlc_core(s.a, s.f);
            Ok((CpuState { a: a, f: f, ..s }, 4))
        } else if op == 0x0f {
            let (a, f) = rrc_core(s.a, s.f);
            Ok((CpuState { a: a, f: f, ..s }, 4))
        } else if op == 0x17 {
            let (a, f) = ral_core(s.a, s.f);
            Ok((CpuState { a: a, f: f, ..s }, 4))
        } else if op == 0x1f {
            let (a, f) = rar_core(s.a, s.f);
            Ok((CpuState { a: a, f: f, ..s }, 4))
        } else if op == 0x27 {
            let (a, f) = daa_core(s.a, s.f);
            Ok((CpuState { a: a, f: f, ..s }, 4))
        } else if op == 0x2f {
            Ok((CpuState { a: !s.a, ..s }, 4))
        } else if op == 0x37 {
            Ok((CpuState { f: spec_set_mask(s.f, MASK_CY, true), ..s }, 4))
        } else {
            Ok((CpuState { f: spec_set_mask(s.f, MASK_CY, !flag_cy(s.f)), ..s }, 4))
        }
    }
}

/// Opcodes 0xc0 to 0xff: stack, control transfer, immediates and I/O.
pub open spec fn spec_exec_high(s: CpuState, op: u8) -> Result<StepOk, EmuError> {
    let low3 = op & 7;
    let cond = cond_holds(s, cond_of_code((op >> 3) & 7));
    let spair = stack_pair_of_code((op >> 4) & 3);
    if low3 == 0 {
        spec_ret(s, cond, 12, 6)
    } else if low3 == 1 {
        if op & 8 == 0 {
            spec_pop_op(s, spair)
        } else if op == 0xc9 {
            spec_ret(s, true, 10, 10)
        } else if op == 0xe9 {
            Ok((CpuState { pc: word(s.h, s.l), ..s }, 6))
        } else if op == 0xf9 {
            Ok((CpuState { sp: word(s.h, s.l), ..s }, 6))
        } else {
            Err(EmuError::UnimplementedOpcode(op))
        }
    } else if low3 == 2 {
        spec_jump(s, cond)
    } else if low3 == 3 {
        if op == 0xc3 {
            spec_jump(s, true)
        } else if op == 0xd3 {
            spec_out(s)
        } else if op == 0xdb {
            spec_in(s)
        } else if op == 0xe3 {
            spec_xthl(s)
        } else if op == 0xeb {
            Ok((CpuState { h: s.d, d: s.h, l: s.e, e: s.l, ..s }, 4))
        } else if op == 0xf3 {
            Ok((CpuState { ie: false, ..s }, 4))
        } else if op == 0xfb {
            Ok((CpuState { ie: true, ..s }, 4))
        } else {
            Err(EmuError::UnimplementedOpcode(op))
        }
    } else if low3 == 4 {
        spec_call(s, cond)
    } else if low3 == 5 {
        if op & 8 == 0 {
            spec_push_op(s, spair)
        } else if op == 0xcd {
            spec_call(s, true)
        } else {
            Err(EmuError::UnimplementedOpcode(op))
        }
    } else if low3 == 6 {
        spec_alu_imm(s, (op >> 3) & 7)
    } else {
        spec_rst(s, (op >> 3) & 7)
    }
}

/// Executes the already-fetched opcode `op` on state `s`.  Opaque: the
/// dispatcher's proof reveals it; everything past the dispatcher works
/// from [`spec_step`] as a whole.
#[verifier::opaque]
pub open spec fn spec_exec_op(s: CpuState, op: u8) -> Result<StepOk, EmuError> {
    if op == 0x76 {
        Ok((CpuState { hlt: true, ..s }, 5))
    } else if 0x40 <= op && op < 0x80 {
        spec_mov(s, (op >> 3) & 7, op & 7)
    } else if 0x80 <= op && op < 0xc0 {
        spec_alu_op(s, (op >> 3) & 7, op & 7)
    } else if op < 0x40 {
        spec_exec_low(s, op)
    } else {
        spec_exec_high(s, op)
    }
}

/// One full fetch-decode-execute cycle: IR takes the byte at PC, PC
/// advances past it, and the opcode executes.
pub open spec fn spec_step(s: CpuState) -> Result<StepOk, EmuError> {
    match spec_fetch8(s) {
        Ok((s1, op)) => spec_exec_op(CpuState { ir: op, ..s1 }, op),
        Err(e) => Err(e),
    }
}

/// The state after at most `n` instructions: stepping stops early at a
/// halted state and is `None` once a fault occurs.
pub open spec fn spec_run_n(s: CpuState, n: nat) -> Option<CpuState>
    decreases n,
{
    if n == 0 {
        Some(s)
    } else if s.hlt {
        Some(s)
    } else {
        match spec_step(s) {
            Ok((s2, _t)) => spec_run_n(s2, (n - 1) as nat),
            Err(_) => None,
        }
    }
}

/// A bounded run extends by one more successful step.
pub proof fn lemma_run_n_extend(s: CpuState, n: nat, u: CpuState, v: CpuState, t: u8)
    requires
        spec_run_n(s, n) == Some(u),
        !u.hlt,
        spec_step(u) == Ok::<StepOk, EmuError>((v, t)),
    ensures
        spec_run_n(s, n + 1) == Some(v),
    decreases n,
{
    reveal_with_fuel(spec_run_n, 2);
    if n == 0 {
    } else if s.hlt {
    } else {
        match spec_step(s) {
            Ok((s2, _t2)) => {
                lemma_run_n_extend(s2, (n - 1) as nat, u, v, t);
            },
            Err(_) => {},
        }
    }
}

/// Once a bounded run reaches a halted state it stays there: HLT
/// latches, so a straight-line program that executes HLT leaves every
/// longer run at that same halted state.
pub proof fn lemma_halted_stays(s: CpuState, k: nat, n: nat, u: CpuState)
    requires
        spec_run_n(s, k) == Some(u),
        u.hlt,
        k <= n,
    ensures
        spec_run_n(s, n) == Some(u),
    decreases n,
{
    reveal_with_fuel(spec_run_n, 2);
    if s.hlt || n == 0 {
    } else if k == 0 {
        // u == s but s is not halted: contradiction with u.hlt.
        assert(false);
    } else {
        match spec_step(s) {
            Ok((s2, _t)) => {
                lemma_halted_stays(s2, (k - 1) as nat, (n - 1) as nat, u);
            },
            Err(_) => {},
        }
    }
}

/// The halted state a run reaches is unique: two bounded runs that
/// both end halted end in the same state.  With this, a caller of the
/// run loop's contract may pin the whole final machine state from any
/// one halting execution it knows of.
pub proof fn lemma_halted_unique(s: CpuState, m: nat, n: nat, u: CpuState, v: CpuState)
    requires
        spec_run_n(s, m) == Some(u),
        u.hlt,
        spec_run_n(s, n) == Some(v),
        v.hlt,
    ensures
        u == v,
{
    if m <= n {
        lemma_halted_stays(s, m, n, u);
    } else {
        lemma_halted_stays(s, n, m, v);
    }
}

/// Once a bounded run faults it stays faulted: if the state after
/// `k` steps is not halted and its next step faults, every longer
/// bounded run is `None`.
pub proof fn lemma_fault_stays(s: CpuState, k: nat, n: nat, u: CpuState)
    requires
        spec_run_n(s, k) == Some(u),
        !u.hlt,
        spec_step(u) is Err,
        k < n,
    ensures
        spec_run_n(s, n) is None,
    decreases n,
{
    reveal_with_fuel(spec_run_n, 2);
    if s.hlt {
        // The run would stand still at a halted state, but `u` is not
        // halted.
        assert(false);
    } else if k == 0 {
        // The very first step faults.
    } else {
        match spec_step(s) {
            Ok((s2, _t)) => {
                lemma_fault_stays(s2, (k - 1) as nat, (n - 1) as nat, u);
            },
            Err(_) => {
                // The run would already be `None` at `k` steps.
                assert(false);
            },
        }
    }
}

} // verus!
