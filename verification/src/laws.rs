//! The library's general laws, each proved once over the model.
//!
//! The per-instruction contracts in [`crate::cpu`] tie the executable
//! machine to [`crate::model`]; the laws here state what holds of the
//! model itself: parity, the exact add-with-carry and
//! subtract-with-borrow arithmetic, rotate round trips and push/pop
//! round trips.  The halt-latch law lives beside the run model as
//! [`crate::model::lemma_halted_stays`], and the opcode-table laws
//! beside the table as [`crate::optable::lemma_opcode_unique`] and
//! [`crate::optable::lemma_opcode_reachable`].

use vstd::prelude::*;

use crate::flags::{even_parity, flag_ac, flag_cy, flag_p, spec_set_mask};
use crate::assembler::{spec_pass2, AsmErrorV, TokenV};
use crate::model::{
    alu_add, alu_apply, alu_sub, dcr_core, flags_szp, hi8, inr_core, lo8, ral_core, rar_core,
    rlc_core, rrc_core, set_stack_pair, spec_exec_op, spec_pop_op, spec_push_op, spec_step,
    stack_hi, stack_lo, word, wrap_dec16, CpuState, StackPair,
};
use crate::optable::lemma_opcode_of_jmp;

verus! {

/// The ground facts about the flag masks that the laws below lean on:
/// which masks overlap and which do not.
proof fn lemma_mask_consts()
    ensures
        0x04u8 & 0x04u8 == 0x04u8,
        0x10u8 & 0x10u8 == 0x10u8,
        0x01u8 & 0x01u8 == 0x01u8,
        0x04u8 & 0x10u8 == 0u8,
        0x04u8 & 0x01u8 == 0u8,
        0x04u8 & 0x22u8 == 0u8,
        0x10u8 & 0x01u8 == 0u8,
        0x10u8 & 0x22u8 == 0u8,
        0x01u8 & 0x22u8 == 0u8,
{
    assert(0x04u8 & 0x04u8 == 0x04u8 && 0x10u8 & 0x10u8 == 0x10u8 && 0x01u8 & 0x01u8 == 0x01u8
        && 0x04u8 & 0x10u8 == 0u8 && 0x04u8 & 0x01u8 == 0u8 && 0x04u8 & 0x22u8 == 0u8 && 0x10u8
        & 0x01u8 == 0u8 && 0x10u8 & 0x22u8 == 0u8 && 0x01u8 & 0x22u8 == 0u8) by (bit_vector);
}

/// Setting the bits of `m` leaves a bit outside `m` as it was.
proof fn lemma_mask_keep(f: u8, m: u8, t: u8, b: bool)
    requires
        t & m == 0,
    ensures
        (spec_set_mask(f, m, b) & t != 0) == (f & t != 0),
{
    assert(((if b {
        f | m
    } else {
        f & !m
    }) & t != 0) == (f & t != 0)) by (bit_vector)
        requires
            t & m == 0,
    ;
}

/// Setting the bits of `m` forces a nonzero bit inside `m` to `b`.
proof fn lemma_mask_set(f: u8, m: u8, t: u8, b: bool)
    requires
        t & m == t,
        t != 0,
    ensures
        (spec_set_mask(f, m, b) & t != 0) == b,
{
    assert(((if b {
        f | m
    } else {
        f & !m
    }) & t != 0) == b) by (bit_vector)
        requires
            t & m == t && t != 0,
    ;
}

/// Flag parity: after any of the eight ALU families other than CMP
/// (which writes no result), and after INR and DCR, the parity flag is
/// set exactly when the result byte has an even number of set bits.
pub proof fn lemma_flag_parity(s: CpuState, fam: u8, v: u8, x: u8)
    requires
        fam < 7,
    ensures
        flag_p(alu_apply(s, fam, v).f) == even_parity(alu_apply(s, fam, v).a),
        flag_p(inr_core(x, s.f).1) == even_parity(inr_core(x, s.f).0),
        flag_p(dcr_core(x, s.f).1) == even_parity(dcr_core(x, s.f).0),
{
    lemma_mask_consts();
    let r = alu_apply(s, fam, v);
    if fam == 0 || fam == 1 || fam == 2 || fam == 3 {
        lemma_mask_keep(spec_set_mask(spec_set_mask(flags_szp(s.f, r.a), 0x10, flag_ac(r.f)), 0x01, flag_cy(r.f)), 0x22, 0x04, flag_cy(r.f));
        lemma_parity_of_chain(s.f, r.a, fam, v, s);
    } else {
        lemma_mask_set(spec_set_mask(spec_set_mask(s.f, 0x80, r.a & 0x80 != 0), 0x40, r.a == 0), 0x04, 0x04, even_parity(r.a));
    }
    lemma_parity_incdec(x, s.f);
}

/// The parity bit survives the AC, CY and overflow-witness updates of
/// the add and subtract cores.
proof fn lemma_parity_of_chain(f: u8, r: u8, fam: u8, v: u8, s: CpuState)
    requires
        fam < 4,
    ensures
        flag_p(alu_apply(s, fam, v).f) == even_parity(alu_apply(s, fam, v).a),
{
    lemma_mask_consts();
    let a = alu_apply(s, fam, v);
    let szp = flags_szp(s.f, a.a);
    lemma_mask_set(spec_set_mask(spec_set_mask(s.f, 0x80, a.a & 0x80 != 0), 0x40, a.a == 0), 0x04, 0x04, even_parity(a.a));
    let f1 = spec_set_mask(szp, 0x10, flag_ac_arg(s, fam, v));
    lemma_mask_keep(szp, 0x10, 0x04, flag_ac_arg(s, fam, v));
    let f2 = spec_set_mask(f1, 0x01, flag_cy_arg(s, fam, v));
    lemma_mask_keep(f1, 0x01, 0x04, flag_cy_arg(s, fam, v));
    lemma_mask_keep(f2, 0x22, 0x04, flag_cy_arg(s, fam, v));
}

/// The auxiliary-carry condition the add and subtract cores use.
spec fn flag_ac_arg(s: CpuState, fam: u8, v: u8) -> bool {
    let cin: u8 = if flag_cy(s.f) {
        1
    } else {
        0
    };
    if fam == 0 {
        (s.a & 0x0f) + (v & 0x0f) + 0 >= 0x10
    } else if fam == 1 {
        (s.a & 0x0f) + (v & 0x0f) + cin >= 0x10
    } else if fam == 2 {
        (s.a & 0x0f) < (v & 0x0f) + 0
    } else {
        (s.a & 0x0f) < (v & 0x0f) + cin
    }
}

/// The carry condition the add and subtract cores use.
spec fn flag_cy_arg(s: CpuState, fam: u8, v: u8) -> bool {
    let cin: u8 = if flag_cy(s.f) {
        1
    } else {
        0
    };
    if fam == 0 {
        s.a + v + 0 >= 256
    } else if fam == 1 {
        s.a + v + cin >= 256
    } else if fam == 2 {
        (s.a as int) < v + 0
    } else {
        (s.a as int) < v + cin
    }
}

/// Parity after INR and DCR.
proof fn lemma_parity_incdec(x: u8, f: u8)
    ensures
        flag_p(inr_core(x, f).1) == even_parity(inr_core(x, f).0),
        flag_p(dcr_core(x, f).1) == even_parity(dcr_core(x, f).0),
{
    lemma_mask_consts();
    let ri = inr_core(x, f).0;
    let szpi = flags_szp(f, ri);
    lemma_mask_set(spec_set_mask(spec_set_mask(f, 0x80, ri & 0x80 != 0), 0x40, ri == 0), 0x04, 0x04, even_parity(ri));
    lemma_mask_keep(szpi, 0x10, 0x04, x & 0x0f == 0x0f);
    lemma_mask_keep(spec_set_mask(szpi, 0x10, x & 0x0f == 0x0f), 0x22, 0x04, ri == 0);
    let rd = dcr_core(x, f).0;
    let szpd = flags_szp(f, rd);
    lemma_mask_set(spec_set_mask(spec_set_mask(f, 0x80, rd & 0x80 != 0), 0x40, rd == 0), 0x04, 0x04, even_parity(rd));
    lemma_mask_keep(szpd, 0x10, 0x04, x & 0x0f == 0);
    lemma_mask_keep(spec_set_mask(szpd, 0x10, x & 0x0f == 0), 0x22, 0x04, rd == 0xff);
}

/// Add and subtract wrap: `a + b + cin` lands modulo 256 with CY set
/// exactly on carry out and AC exactly on a low-nibble carry; the
/// subtraction with borrow mirrors it.
pub proof fn lemma_add_sub_wrap(a: u8, b: u8, cin: u8, f: u8)
    requires
        cin <= 1,
    ensures
        alu_add(a, b, cin, f).0 == (a + b + cin) % 256,
        flag_cy(alu_add(a, b, cin, f).1) == (a + b + cin >= 256),
        flag_ac(alu_add(a, b, cin, f).1) == ((a & 0x0f) + (b & 0x0f) + cin >= 0x10),
        alu_sub(a, b, cin, f).0 == (a + 256 - b - cin) % 256,
        flag_cy(alu_sub(a, b, cin, f).1) == ((a as int) < b + cin),
        flag_ac(alu_sub(a, b, cin, f).1) == ((a & 0x0f) < (b & 0x0f) + cin),
{
    lemma_mask_consts();
    let ra = alu_add(a, b, cin, f).0;
    let cya = a + b + cin >= 256;
    let aca = (a & 0x0f) + (b & 0x0f) + cin >= 0x10;
    let szpa = flags_szp(f, ra);
    let fa1 = spec_set_mask(szpa, 0x10, aca);
    let fa2 = spec_set_mask(fa1, 0x01, cya);
    lemma_mask_set(fa1, 0x01, 0x01, cya);
    lemma_mask_keep(fa2, 0x22, 0x01, cya);
    lemma_mask_set(szpa, 0x10, 0x10, aca);
    lemma_mask_keep(fa1, 0x01, 0x10, cya);
    lemma_mask_keep(fa2, 0x22, 0x10, cya);
    let rs = alu_sub(a, b, cin, f).0;
    let cys = (a as int) < b + cin;
    let acs = (a & 0x0f) < (b & 0x0f) + cin;
    let szps = flags_szp(f, rs);
    let fs1 = spec_set_mask(szps, 0x10, acs);
    let fs2 = spec_set_mask(fs1, 0x01, cys);
    lemma_mask_set(fs1, 0x01, 0x01, cys);
    lemma_mask_keep(fs2, 0x22, 0x01, cys);
    lemma_mask_set(szps, 0x10, 0x10, acs);
    lemma_mask_keep(fs1, 0x01, 0x10, cys);
    lemma_mask_keep(fs2, 0x22, 0x10, cys);
}

/// Rotate round trip: RLC then RRC returns the accumulator to its
/// starting value, and so do RAL then RAR through the carry.
pub proof fn lemma_rotate_round_trip(a: u8, f: u8)
    ensures
        rrc_core(rlc_core(a, f).0, rlc_core(a, f).1).0 == a,
        rar_core(ral_core(a, f).0, ral_core(a, f).1).0 == a,
{
    lemma_mask_consts();
    let a1 = rlc_core(a, f).0;
    assert((((a << 1) | (a >> 7)) >> 1) | (((a << 1) | (a >> 7)) << 7) == a) by (bit_vector);
    let f2 = ral_core(a, f).1;
    lemma_mask_set(f, 0x01, 0x01, a & 0x80 != 0);
    let c0: u8 = if flag_cy(f) {
        1
    } else {
        0
    };
    let a2 = ral_core(a, f).0;
    assert(a2 == (a << 1) | c0);
    if a & 0x80 != 0 {
        assert((((a << 1) | c0) >> 1) | 0x80u8 == a) by (bit_vector)
            requires
                a & 0x80 != 0 && c0 <= 1,
        ;
    } else {
        assert((((a << 1) | c0) >> 1) | 0u8 == a) by (bit_vector)
            requires
                a & 0x80 == 0 && c0 <= 1,
        ;
    }
}

/// Push/pop round trip: loading any pair with a 16-bit value, pushing
/// it, and popping into any pair (the same one or another) reproduces
/// the value and returns SP to where it started.
pub proof fn lemma_push_pop_round_trip(s: CpuState, p: StackPair, q: StackPair, v: u16)
    requires
        wrap_dec16(s.sp) < s.mem.len(),
        wrap_dec16(wrap_dec16(s.sp)) < s.mem.len(),
    ensures
        ({
            let s1 = set_stack_pair(s, p, hi8(v), lo8(v));
            match spec_push_op(s1, p) {
                Ok((s2, _t1)) => match spec_pop_op(s2, q) {
                    Ok((s3, _t2)) => word(stack_hi(s3, q), stack_lo(s3, q)) == v && s3.sp == s.sp,
                    Err(_) => false,
                },
                Err(_) => false,
            }
        }),
{
    lemma_word_split(v);
    let s1 = set_stack_pair(s, p, hi8(v), lo8(v));
    assert(stack_hi(s1, p) == hi8(v) && stack_lo(s1, p) == lo8(v));
    let sp1 = wrap_dec16(s.sp);
    let sp2 = wrap_dec16(sp1);
    assert(sp1 != sp2);
}

/// A 16-bit word splits into its bytes and reassembles exactly.
pub proof fn lemma_word_split(v: u16)
    ensures
        word(hi8(v), lo8(v)) == v,
{
    assert(((((v >> 8) as u8) as u16) << 8) | (((v & 0xff) as u8) as u16) == v) by (bit_vector);
}


/// A 16-bit word is 256 times its high byte plus its low byte.
pub proof fn lemma_word_value(h: u8, l: u8)
    ensures
        word(h, l) == 256 * h + l,
{
    assert((((h as u16) << 8) | (l as u16)) == 256 * (h as u16) + (l as u16)) by (bit_vector);
}

/// Pass two emits `JMP label` as 0xc3 followed by the label's
/// pass-one address, low byte first.
#[verifier::spinoff_prover]
proof fn lemma_jmp_bytes(
    toks: Seq<TokenV>,
    i: int,
    addr: int,
    m: Map<Seq<char>, int>,
    label: Seq<char>,
    bin: Seq<u8>,
    listing: Seq<char>,
)
    requires
        0 <= i < toks.len() - 1,
        toks[i] == TokenV::Mnemonic("jmp"@, 0u8, 2u8),
        toks[i + 1] == TokenV::Symbol(label),
        m.contains_key(label),
        spec_pass2(toks, i, addr, m) == Ok::<(Seq<u8>, Seq<char>), AsmErrorV>((bin, listing)),
    ensures
        bin.len() >= 3,
        bin[0] == 0xc3,
        bin[1] == (m[label] % 0x10000) % 256,
        bin[2] == ((m[label] % 0x10000) / 256) % 256,
{
    lemma_opcode_of_jmp();
}

/// Executing the three bytes of an absolute jump moves PC to the
/// 16-bit target.
#[verifier::spinoff_prover]
proof fn lemma_jmp_step(s: CpuState, v: int)
    requires
        0 <= v < 0x10000,
        s.mem.len() <= 0x10000,
        s.pc + 2 < s.mem.len(),
        s.mem[s.pc as int] == 0xc3,
        s.mem[s.pc as int + 1] == (v % 256) as u8,
        s.mem[s.pc as int + 2] == ((v / 256) % 256) as u8,
    ensures
        spec_step(s) matches Ok(p) && p.0.pc == v,
{
    reveal(spec_exec_op);
    assert(0xc3u8 & 7 == 3 && 0xc3u8 & 8 == 0) by (bit_vector);
    lemma_word_value(((v / 256) % 256) as u8, (v % 256) as u8);
    assert(spec_step(s) matches Ok(p) && p.0.pc == v);
}

/// Label resolution: wherever `JMP label` stands in an assembled token
/// stream, with `label` bound by pass one, executing that jump from its
/// own emitted bytes moves PC to exactly the label's pass-one address,
/// reduced modulo the 16-bit address space.
pub proof fn lemma_label_resolution(
    toks: Seq<TokenV>,
    i: int,
    addr: int,
    m: Map<Seq<char>, int>,
    s: CpuState,
    label: Seq<char>,
    bin: Seq<u8>,
    listing: Seq<char>,
)
    requires
        0 <= i < toks.len() - 1,
        toks[i] == TokenV::Mnemonic("jmp"@, 0u8, 2u8),
        toks[i + 1] == TokenV::Symbol(label),
        m.contains_key(label),
        spec_pass2(toks, i, addr, m) == Ok::<(Seq<u8>, Seq<char>), AsmErrorV>((bin, listing)),
        s.mem.len() <= 0x10000,
        s.pc + 2 < s.mem.len(),
        s.mem[s.pc as int] == bin[0],
        s.mem[s.pc as int + 1] == bin[1],
        s.mem[s.pc as int + 2] == bin[2],
    ensures
        spec_step(s) matches Ok(p) && p.0.pc == m[label] % 0x10000,
{
    lemma_jmp_bytes(toks, i, addr, m, label, bin, listing);
    lemma_jmp_step(s, m[label] % 0x10000);
}

} // verus!
