//! The opcode table: the 246 underscore-joined instruction keys and
//! their opcode bytes.
//!
//! The table is split by key length.  In each length group a key is
//! matched through [`key_matches`], which conjoins the packed
//! [`key_code`] fingerprint with plain sequence equality: the two are
//! logically the same test, but the fingerprint lets lookups and the
//! bijectivity proofs go through by arithmetic on revealed literals.

use vstd::prelude::*;

verus! {

/// The key length, and up to eight leading characters reduced modulo
/// 128, packed into one integer.  Two equal sequences always get the
/// same code, and any two distinct keys of this table get distinct
/// codes.
pub open spec fn key_code(k: Seq<char>) -> int {
    let d0: int = if k.len() > 0 { (k[0] as int) % 128 } else { 0 };
    let d1: int = if k.len() > 1 { (k[1] as int) % 128 } else { 0 };
    let d2: int = if k.len() > 2 { (k[2] as int) % 128 } else { 0 };
    let d3: int = if k.len() > 3 { (k[3] as int) % 128 } else { 0 };
    let d4: int = if k.len() > 4 { (k[4] as int) % 128 } else { 0 };
    let d5: int = if k.len() > 5 { (k[5] as int) % 128 } else { 0 };
    let d6: int = if k.len() > 6 { (k[6] as int) % 128 } else { 0 };
    let d7: int = if k.len() > 7 { (k[7] as int) % 128 } else { 0 };
    k.len() * 0x100000000000000 + d0 + d1 * 0x80 + d2 * 0x4000 + d3 * 0x200000 + d4 * 0x10000000
        + d5 * 0x800000000 + d6 * 0x40000000000 + d7 * 0x2000000000000
}

/// Whether `k` is the key `lit`: plain equality, stated together with
/// the fingerprint it implies.
pub open spec fn key_matches(k: Seq<char>, lit: Seq<char>) -> bool {
    key_code(k) == key_code(lit) && k == lit
}

/// Compares a vector of characters against a keyword.
pub fn eq_str(v: &Vec<char>, s: &str) -> (r: bool)
    ensures
        r == (v@ == s@),
{
    let n = s.unicode_len();
    if v.len() != n {
        proof {
            if v@ == s@ {
                assert(v@.len() == s@.len());
            }
        }
        return false;
    }
    let mut i: usize = 0;
    while i < n
        invariant
            v@.len() == s@.len() == n,
            i <= n,
            forall|j: int| 0 <= j < i ==> v@[j] == s@[j],
        decreases n - i,
    {
        if v[i] != s.get_char(i) {
            proof {
                if v@ == s@ {
                    assert(v@[i as int] == s@[i as int]);
                }
            }
            return false;
        }
        i = i + 1;
    }
    proof {
        assert(v@ =~= s@);
    }
    true
}

/// Keys of length 2.
pub open spec fn spec_opcode_len2(k: Seq<char>) -> Option<u8> {
    if key_matches(k, "rz"@) {
        Some(0xC8)
    } else if key_matches(k, "jz"@) {
        Some(0xCA)
    } else if key_matches(k, "cz"@) {
        Some(0xCC)
    } else if key_matches(k, "rc"@) {
        Some(0xD8)
    } else if key_matches(k, "jc"@) {
        Some(0xDA)
    } else if key_matches(k, "in"@) {
        Some(0xDB)
    } else if key_matches(k, "cc"@) {
        Some(0xDC)
    } else if key_matches(k, "rp"@) {
        Some(0xF0)
    } else if key_matches(k, "jp"@) {
        Some(0xF2)
    } else if key_matches(k, "di"@) {
        Some(0xF3)
    } else if key_matches(k, "cp"@) {
        Some(0xF4)
    } else if key_matches(k, "rm"@) {
        Some(0xF8)
    } else if key_matches(k, "jm"@) {
        Some(0xFA)
    } else if key_matches(k, "ei"@) {
        Some(0xFB)
    } else if key_matches(k, "cm"@) {
        Some(0xFC)
    } else {
        None
    }
}

/// Keys of length 3.
pub open spec fn spec_opcode_len3(k: Seq<char>) -> Option<u8> {
    if key_matches(k, "nop"@) {
        Some(0x00)
    } else if key_matches(k, "rlc"@) {
        Some(0x07)
    } else if key_matches(k, "rrc"@) {
        Some(0x0F)
    } else if key_matches(k, "ral"@) {
        Some(0x17)
    } else if key_matches(k, "rar"@) {
        Some(0x1F)
    } else if key_matches(k, "rim"@) {
        Some(0x20)
    } else if key_matches(k, "daa"@) {
        Some(0x27)
    } else if key_matches(k, "cma"@) {
        Some(0x2F)
    } else if key_matches(k, "sim"@) {
        Some(0x30)
    } else if key_matches(k, "sta"@) {
        Some(0x32)
    } else if key_matches(k, "stc"@) {
        Some(0x37)
    } else if key_matches(k, "lda"@) {
        Some(0x3A)
    } else if key_matches(k, "cmc"@) {
        Some(0x3F)
    } else if key_matches(k, "hlt"@) {
        Some(0x76)
    } else if key_matches(k, "rnz"@) {
        Some(0xC0)
    } else if key_matches(k, "jnz"@) {
        Some(0xC2)
    } else if key_matches(k, "jmp"@) {
        Some(0xC3)
    } else if key_matches(k, "cnz"@) {
        Some(0xC4)
    } else if key_matches(k, "adi"@) {
        Some(0xC6)
    } else if key_matches(k, "ret"@) {
        Some(0xC9)
    } else if key_matches(k, "aci"@) {
        Some(0xCE)
    } else if key_matches(k, "rnc"@) {
        Some(0xD0)
    } else if key_matches(k, "jnc"@) {
        Some(0xD2)
    } else if key_matches(k, "out"@) {
        Some(0xD3)
    } else if key_matches(k, "cnc"@) {
        Some(0xD4)
    } else if key_matches(k, "sui"@) {
        Some(0xD6)
    } else if key_matches(k, "sbi"@) {
        Some(0xDE)
    } else if key_matches(k, "rpo"@) {
        Some(0xE0)
    } else if key_matches(k, "jpo"@) {
        Some(0xE2)
    } else if key_matches(k, "cpo"@) {
        Some(0xE4)
    } else if key_matches(k, "ani"@) {
        Some(0xE6)
    } else if key_matches(k, "rpe"@) {
        Some(0xE8)
    } else if key_matches(k, "jpe"@) {
        Some(0xEA)
    } else if key_matches(k, "cpe"@) {
        Some(0xEC)
    } else if key_matches(k, "xri"@) {
        Some(0xEE)
    } else if key_matches(k, "ori"@) {
        Some(0xF6)
    } else if key_matches(k, "cpi"@) {
        Some(0xFE)
    } else {
        None
    }
}

/// Keys of length 4.
pub open spec fn spec_opcode_len4(k: Seq<char>) -> Option<u8> {
    if key_matches(k, "shld"@) {
        Some(0x22)
    } else if key_matches(k, "lhld"@) {
        Some(0x2A)
    } else if key_matches(k, "call"@) {
        Some(0xCD)
    } else if key_matches(k, "xthl"@) {
        Some(0xE3)
    } else if key_matches(k, "pchl"@) {
        Some(0xE9)
    } else if key_matches(k, "xchg"@) {
        Some(0xEB)
    } else if key_matches(k, "sphl"@) {
        Some(0xF9)
    } else {
        None
    }
}

/// Keys of length 5.
pub open spec fn spec_opcode_len5(k: Seq<char>) -> Option<u8> {
    if key_matches(k, "lxi_b"@) {
        Some(0x01)
    } else if key_matches(k, "inx_b"@) {
        Some(0x03)
    } else if key_matches(k, "inr_b"@) {
        Some(0x04)
    } else if key_matches(k, "dcr_b"@) {
        Some(0x05)
    } else if key_matches(k, "mvi_b"@) {
        Some(0x06)
    } else if key_matches(k, "dad_b"@) {
        Some(0x09)
    } else if key_matches(k, "dcx_b"@) {
        Some(0x0B)
    } else if key_matches(k, "inr_c"@) {
        Some(0x0C)
    } else if key_matches(k, "dcr_c"@) {
        Some(0x0D)
    } else if key_matches(k, "mvi_c"@) {
        Some(0x0E)
    } else if key_matches(k, "lxi_d"@) {
        Some(0x11)
    } else if key_matches(k, "inx_d"@) {
        Some(0x13)
    } else if key_matches(k, "inr_d"@) {
        Some(0x14)
    } else if key_matches(k, "dcr_d"@) {
        Some(0x15)
    } else if key_matches(k, "mvi_d"@) {
        Some(0x16)
    } else if key_matches(k, "dad_d"@) {
        Some(0x19)
    } else if key_matches(k, "dcx_d"@) {
        Some(0x1B)
    } else if key_matches(k, "inr_e"@) {
        Some(0x1C)
    } else if key_matches(k, "dcr_e"@) {
        Some(0x1D)
    } else if key_matches(k, "mvi_e"@) {
        Some(0x1E)
    } else if key_matches(k, "lxi_h"@) {
        Some(0x21)
    } else if key_matches(k, "inx_h"@) {
        Some(0x23)
    } else if key_matches(k, "inr_h"@) {
        Some(0x24)
    } else if key_matches(k, "dcr_h"@) {
        Some(0x25)
    } else if key_matches(k, "mvi_h"@) {
        Some(0x26)
    } else if key_matches(k, "dad_h"@) {
        Some(0x29)
    } else if key_matches(k, "dcx_h"@) {
        Some(0x2B)
    } else if key_matches(k, "inr_l"@) {
        Some(0x2C)
    } else if key_matches(k, "dcr_l"@) {
        Some(0x2D)
    } else if key_matches(k, "mvi_l"@) {
        Some(0x2E)
    } else if key_matches(k, "inr_m"@) {
        Some(0x34)
    } else if key_matches(k, "dcr_m"@) {
        Some(0x35)
    } else if key_matches(k, "mvi_m"@) {
        Some(0x36)
    } else if key_matches(k, "inr_a"@) {
        Some(0x3C)
    } else if key_matches(k, "dcr_a"@) {
        Some(0x3D)
    } else if key_matches(k, "mvi_a"@) {
        Some(0x3E)
    } else if key_matches(k, "add_b"@) {
        Some(0x80)
    } else if key_matches(k, "add_c"@) {
        Some(0x81)
    } else if key_matches(k, "add_d"@) {
        Some(0x82)
    } else if key_matches(k, "add_e"@) {
        Some(0x83)
    } else if key_matches(k, "add_h"@) {
        Some(0x84)
    } else if key_matches(k, "add_l"@) {
        Some(0x85)
    } else if key_matches(k, "add_m"@) {
        Some(0x86)
    } else if key_matches(k, "add_a"@) {
        Some(0x87)
    } else if key_matches(k, "adc_b"@) {
        Some(0x88)
    } else if key_matches(k, "adc_c"@) {
        Some(0x89)
    } else if key_matches(k, "adc_d"@) {
        Some(0x8A)
    } else if key_matches(k, "adc_e"@) {
        Some(0x8B)
    } else if key_matches(k, "adc_h"@) {
        Some(0x8C)
    } else if key_matches(k, "adc_l"@) {
        Some(0x8D)
    } else if key_matches(k, "adc_m"@) {
        Some(0x8E)
    } else if key_matches(k, "adc_a"@) {
        Some(0x8F)
    } else if key_matches(k, "sub_b"@) {
        Some(0x90)
    } else if key_matches(k, "sub_c"@) {
        Some(0x91)
    } else if key_matches(k, "sub_d"@) {
        Some(0x92)
    } else if key_matches(k, "sub_e"@) {
        Some(0x93)
    } else if key_matches(k, "sub_h"@) {
        Some(0x94)
    } else if key_matches(k, "sub_l"@) {
        Some(0x95)
    } else if key_matches(k, "sub_m"@) {
        Some(0x96)
    } else if key_matches(k, "sub_a"@) {
        Some(0x97)
    } else if key_matches(k, "sbb_b"@) {
        Some(0x98)
    } else if key_matches(k, "sbb_c"@) {
        Some(0x99)
    } else if key_matches(k, "sbb_d"@) {
        Some(0x9A)
    } else if key_matches(k, "sbb_e"@) {
        Some(0x9B)
    } else if key_matches(k, "sbb_h"@) {
        Some(0x9C)
    } else if key_matches(k, "sbb_l"@) {
        Some(0x9D)
    } else if key_matches(k, "sbb_m"@) {
        Some(0x9E)
    } else if key_matches(k, "sbb_a"@) {
        Some(0x9F)
    } else if key_matches(k, "ana_b"@) {
        Some(0xA0)
    } else if key_matches(k, "ana_c"@) {
        Some(0xA1)
    } else if key_matches(k, "ana_d"@) {
        Some(0xA2)
    } else if key_matches(k, "ana_e"@) {
        Some(0xA3)
    } else if key_matches(k, "ana_h"@) {
        Some(0xA4)
    } else if key_matches(k, "ana_l"@) {
        Some(0xA5)
    } else if key_matches(k, "ana_m"@) {
        Some(0xA6)
    } else if key_matches(k, "ana_a"@) {
        Some(0xA7)
    } else if key_matches(k, "xra_b"@) {
        Some(0xA8)
    } else if key_matches(k, "xra_c"@) {
        Some(0xA9)
    } else if key_matches(k, "xra_d"@) {
        Some(0xAA)
    } else if key_matches(k, "xra_e"@) {
        Some(0xAB)
    } else if key_matches(k, "xra_h"@) {
        Some(0xAC)
    } else if key_matches(k, "xra_l"@) {
        Some(0xAD)
    } else if key_matches(k, "xra_m"@) {
        Some(0xAE)
    } else if key_matches(k, "xra_a"@) {
        Some(0xAF)
    } else if key_matches(k, "ora_b"@) {
        Some(0xB0)
    } else if key_matches(k, "ora_c"@) {
        Some(0xB1)
    } else if key_matches(k, "ora_d"@) {
        Some(0xB2)
    } else if key_matches(k, "ora_e"@) {
        Some(0xB3)
    } else if key_matches(k, "ora_h"@) {
        Some(0xB4)
    } else if key_matches(k, "ora_l"@) {
        Some(0xB5)
    } else if key_matches(k, "ora_m"@) {
        Some(0xB6)
    } else if key_matches(k, "ora_a"@) {
        Some(0xB7)
    } else if key_matches(k, "cmp_b"@) {
        Some(0xB8)
    } else if key_matches(k, "cmp_c"@) {
        Some(0xB9)
    } else if key_matches(k, "cmp_d"@) {
        Some(0xBA)
    } else if key_matches(k, "cmp_e"@) {
        Some(0xBB)
    } else if key_matches(k, "cmp_h"@) {
        Some(0xBC)
    } else if key_matches(k, "cmp_l"@) {
        Some(0xBD)
    } else if key_matches(k, "cmp_m"@) {
        Some(0xBE)
    } else if key_matches(k, "cmp_a"@) {
        Some(0xBF)
    } else if key_matches(k, "pop_b"@) {
        Some(0xC1)
    } else if key_matches(k, "rst_0"@) {
        Some(0xC7)
    } else if key_matches(k, "rst_1"@) {
        Some(0xCF)
    } else if key_matches(k, "pop_d"@) {
        Some(0xD1)
    } else if key_matches(k, "rst_2"@) {
        Some(0xD7)
    } else if key_matches(k, "rst_3"@) {
        Some(0xDF)
    } else if key_matches(k, "pop_h"@) {
        Some(0xE1)
    } else if key_matches(k, "rst_4"@) {
        Some(0xE7)
    } else if key_matches(k, "rst_5"@) {
        Some(0xEF)
    } else if key_matches(k, "rst_6"@) {
        Some(0xF7)
    } else if key_matches(k, "rst_7"@) {
        Some(0xFF)
    } else {
        None
    }
}

/// Keys of length 6.
pub open spec fn spec_opcode_len6(k: Seq<char>) -> Option<u8> {
    if key_matches(k, "stax_b"@) {
        Some(0x02)
    } else if key_matches(k, "ldax_b"@) {
        Some(0x0A)
    } else if key_matches(k, "stax_d"@) {
        Some(0x12)
    } else if key_matches(k, "ldax_d"@) {
        Some(0x1A)
    } else if key_matches(k, "lxi_sp"@) {
        Some(0x31)
    } else if key_matches(k, "inx_sp"@) {
        Some(0x33)
    } else if key_matches(k, "dad_sp"@) {
        Some(0x39)
    } else if key_matches(k, "dcx_sp"@) {
        Some(0x3B)
    } else if key_matches(k, "push_b"@) {
        Some(0xC5)
    } else if key_matches(k, "push_d"@) {
        Some(0xD5)
    } else if key_matches(k, "push_h"@) {
        Some(0xE5)
    } else {
        None
    }
}

/// Keys of length 7.
pub open spec fn spec_opcode_len7(k: Seq<char>) -> Option<u8> {
    if key_matches(k, "mov_b_b"@) {
        Some(0x40)
    } else if key_matches(k, "mov_b_c"@) {
        Some(0x41)
    } else if key_matches(k, "mov_b_d"@) {
        Some(0x42)
    } else if key_matches(k, "mov_b_e"@) {
        Some(0x43)
    } else if key_matches(k, "mov_b_h"@) {
        Some(0x44)
    } else if key_matches(k, "mov_b_l"@) {
        Some(0x45)
    } else if key_matches(k, "mov_b_m"@) {
        Some(0x46)
    } else if key_matches(k, "mov_b_a"@) {
        Some(0x47)
    } else if key_matches(k, "mov_c_b"@) {
        Some(0x48)
    } else if key_matches(k, "mov_c_c"@) {
        Some(0x49)
    } else if key_matches(k, "mov_c_d"@) {
        Some(0x4A)
    } else if key_matches(k, "mov_c_e"@) {
        Some(0x4B)
    } else if key_matches(k, "mov_c_h"@) {
        Some(0x4C)
    } else if key_matches(k, "mov_c_l"@) {
        Some(0x4D)
    } else if key_matches(k, "mov_c_m"@) {
        Some(0x4E)
    } else if key_matches(k, "mov_c_a"@) {
        Some(0x4F)
    } else if key_matches(k, "mov_d_b"@) {
        Some(0x50)
    } else if key_matches(k, "mov_d_c"@) {
        Some(0x51)
    } else if key_matches(k, "mov_d_d"@) {
        Some(0x52)
    } else if key_matches(k, "mov_d_e"@) {
        Some(0x53)
    } else if key_matches(k, "mov_d_h"@) {
        Some(0x54)
    } else if key_matches(k, "mov_d_l"@) {
        Some(0x55)
    } else if key_matches(k, "mov_d_m"@) {
        Some(0x56)
    } else if key_matches(k, "mov_d_a"@) {
        Some(0x57)
    } else if key_matches(k, "mov_e_b"@) {
        Some(0x58)
    } else if key_matches(k, "mov_e_c"@) {
        Some(0x59)
    } else if key_matches(k, "mov_e_d"@) {
        Some(0x5A)
    } else if key_matches(k, "mov_e_e"@) {
        Some(0x5B)
    } else if key_matches(k, "mov_e_h"@) {
        Some(0x5C)
    } else if key_matches(k, "mov_e_l"@) {
        Some(0x5D)
    } else if key_matches(k, "mov_e_m"@) {
        Some(0x5E)
    } else if key_matches(k, "mov_e_a"@) {
        Some(0x5F)
    } else if key_matches(k, "mov_h_b"@) {
        Some(0x60)
    } else if key_matches(k, "mov_h_c"@) {
        Some(0x61)
    } else if key_matches(k, "mov_h_d"@) {
        Some(0x62)
    } else if key_matches(k, "mov_h_e"@) {
        Some(0x63)
    } else if key_matches(k, "mov_h_h"@) {
        Some(0x64)
    } else if key_matches(k, "mov_h_l"@) {
        Some(0x65)
    } else if key_matches(k, "mov_h_m"@) {
        Some(0x66)
    } else if key_matches(k, "mov_h_a"@) {
        Some(0x67)
    } else if key_matches(k, "mov_l_b"@) {
        Some(0x68)
    } else if key_matches(k, "mov_l_c"@) {
        Some(0x69)
    } else if key_matches(k, "mov_l_d"@) {
        Some(0x6A)
    } else if key_matches(k, "mov_l_e"@) {
        Some(0x6B)
    } else if key_matches(k, "mov_l_h"@) {
        Some(0x6C)
    } else if key_matches(k, "mov_l_l"@) {
        Some(0x6D)
    } else if key_matches(k, "mov_l_m"@) {
        Some(0x6E)
    } else if key_matches(k, "mov_l_a"@) {
        Some(0x6F)
    } else if key_matches(k, "mov_m_b"@) {
        Some(0x70)
    } else if key_matches(k, "mov_m_c"@) {
        Some(0x71)
    } else if key_matches(k, "mov_m_d"@) {
        Some(0x72)
    } else if key_matches(k, "mov_m_e"@) {
        Some(0x73)
    } else if key_matches(k, "mov_m_h"@) {
        Some(0x74)
    } else if key_matches(k, "mov_m_l"@) {
        Some(0x75)
    } else if key_matches(k, "mov_m_a"@) {
        Some(0x77)
    } else if key_matches(k, "mov_a_b"@) {
        Some(0x78)
    } else if key_matches(k, "mov_a_c"@) {
        Some(0x79)
    } else if key_matches(k, "mov_a_d"@) {
        Some(0x7A)
    } else if key_matches(k, "mov_a_e"@) {
        Some(0x7B)
    } else if key_matches(k, "mov_a_h"@) {
        Some(0x7C)
    } else if key_matches(k, "mov_a_l"@) {
        Some(0x7D)
    } else if key_matches(k, "mov_a_m"@) {
        Some(0x7E)
    } else if key_matches(k, "mov_a_a"@) {
        Some(0x7F)
    } else if key_matches(k, "pop_psw"@) {
        Some(0xF1)
    } else {
        None
    }
}

/// Keys of length 8.
pub open spec fn spec_opcode_len8(k: Seq<char>) -> Option<u8> {
    if key_matches(k, "push_psw"@) {
        Some(0xF5)
    } else {
        None
    }
}

/// The opcode byte for an underscore-joined instruction key, or
/// `None` for a key outside the instruction set.
#[verifier::opaque]
pub open spec fn spec_opcode(k: Seq<char>) -> Option<u8> {
    if k.len() == 2 {
        spec_opcode_len2(k)
    } else if k.len() == 3 {
        spec_opcode_len3(k)
    } else if k.len() == 4 {
        spec_opcode_len4(k)
    } else if k.len() == 5 {
        spec_opcode_len5(k)
    } else if k.len() == 6 {
        spec_opcode_len6(k)
    } else if k.len() == 7 {
        spec_opcode_len7(k)
    } else if k.len() == 8 {
        spec_opcode_len8(k)
    } else {
        None
    }
}

#[verifier::rlimit(100)]
#[verifier::spinoff_prover]
fn get_opcode_len2(key: &Vec<char>) -> (r: Option<u8>)
    requires
        key@.len() == 2,
    ensures
        r == spec_opcode_len2(key@),
{
    if eq_str(key, "rz") {
        Some(0xC8)
    } else if eq_str(key, "jz") {
        Some(0xCA)
    } else if eq_str(key, "cz") {
        Some(0xCC)
    } else if eq_str(key, "rc") {
        Some(0xD8)
    } else if eq_str(key, "jc") {
        Some(0xDA)
    } else if eq_str(key, "in") {
        Some(0xDB)
    } else if eq_str(key, "cc") {
        Some(0xDC)
    } else if eq_str(key, "rp") {
        Some(0xF0)
    } else if eq_str(key, "jp") {
        Some(0xF2)
    } else if eq_str(key, "di") {
        Some(0xF3)
    } else if eq_str(key, "cp") {
        Some(0xF4)
    } else if eq_str(key, "rm") {
        Some(0xF8)
    } else if eq_str(key, "jm") {
        Some(0xFA)
    } else if eq_str(key, "ei") {
        Some(0xFB)
    } else if eq_str(key, "cm") {
        Some(0xFC)
    } else {
        None
    }
}

#[verifier::rlimit(100)]
#[verifier::spinoff_prover]
fn get_opcode_len3(key: &Vec<char>) -> (r: Option<u8>)
    requires
        key@.len() == 3,
    ensures
        r == spec_opcode_len3(key@),
{
    if eq_str(key, "nop") {
        Some(0x00)
    } else if eq_str(key, "rlc") {
        Some(0x07)
    } else if eq_str(key, "rrc") {
        Some(0x0F)
    } else if eq_str(key, "ral") {
        Some(0x17)
    } else if eq_str(key, "rar") {
        Some(0x1F)
    } else if eq_str(key, "rim") {
        Some(0x20)
    } else if eq_str(key, "daa") {
        Some(0x27)
    } else if eq_str(key, "cma") {
        Some(0x2F)
    } else if eq_str(key, "sim") {
        Some(0x30)
    } else if eq_str(key, "sta") {
        Some(0x32)
    } else if eq_str(key, "stc") {
        Some(0x37)
    } else if eq_str(key, "lda") {
        Some(0x3A)
    } else if eq_str(key, "cmc") {
        Some(0x3F)
    } else if eq_str(key, "hlt") {
        Some(0x76)
    } else if eq_str(key, "rnz") {
        Some(0xC0)
    } else if eq_str(key, "jnz") {
        Some(0xC2)
    } else if eq_str(key, "jmp") {
        Some(0xC3)
    } else if eq_str(key, "cnz") {
        Some(0xC4)
    } else if eq_str(key, "adi") {
        Some(0xC6)
    } else if eq_str(key, "ret") {
        Some(0xC9)
    } else if eq_str(key, "aci") {
        Some(0xCE)
    } else if eq_str(key, "rnc") {
        Some(0xD0)
    } else if eq_str(key, "jnc") {
        Some(0xD2)
    } else if eq_str(key, "out") {
        Some(0xD3)
    } else if eq_str(key, "cnc") {
        Some(0xD4)
    } else if eq_str(key, "sui") {
        Some(0xD6)
    } else if eq_str(key, "sbi") {
        Some(0xDE)
    } else if eq_str(key, "rpo") {
        Some(0xE0)
    } else if eq_str(key, "jpo") {
        Some(0xE2)
    } else if eq_str(key, "cpo") {
        Some(0xE4)
    } else if eq_str(key, "ani") {
        Some(0xE6)
    } else if eq_str(key, "rpe") {
        Some(0xE8)
    } else if eq_str(key, "jpe") {
        Some(0xEA)
    } else if eq_str(key, "cpe") {
        Some(0xEC)
    } else if eq_str(key, "xri") {
        Some(0xEE)
    } else if eq_str(key, "ori") {
        Some(0xF6)
    } else if eq_str(key, "cpi") {
        Some(0xFE)
    } else {
        None
    }
}

#[verifier::rlimit(100)]
#[verifier::spinoff_prover]
fn get_opcode_len4(key: &Vec<char>) -> (r: Option<u8>)
    requires
        key@.len() == 4,
    ensures
        r == spec_opcode_len4(key@),
{
    if eq_str(key, "shld") {
        Some(0x22)
    } else if eq_str(key, "lhld") {
        Some(0x2A)
    } else if eq_str(key, "call") {
        Some(0xCD)
    } else if eq_str(key, "xthl") {
        Some(0xE3)
    } else if eq_str(key, "pchl") {
        Some(0xE9)
    } else if eq_str(key, "xchg") {
        Some(0xEB)
    } else if eq_str(key, "sphl") {
        Some(0xF9)
    } else {
        None
    }
}

#[verifier::rlimit(100)]
#[verifier::spinoff_prover]
fn get_opcode_len5(key: &Vec<char>) -> (r: Option<u8>)
    requires
        key@.len() == 5,
    ensures
        r == spec_opcode_len5(key@),
{
    if eq_str(key, "lxi_b") {
        Some(0x01)
    } else if eq_str(key, "inx_b") {
        Some(0x03)
    } else if eq_str(key, "inr_b") {
        Some(0x04)
    } else if eq_str(key, "dcr_b") {
        Some(0x05)
    } else if eq_str(key, "mvi_b") {
        Some(0x06)
    } else if eq_str(key, "dad_b") {
        Some(0x09)
    } else if eq_str(key, "dcx_b") {
        Some(0x0B)
    } else if eq_str(key, "inr_c") {
        Some(0x0C)
    } else if eq_str(key, "dcr_c") {
        Some(0x0D)
    } else if eq_str(key, "mvi_c") {
        Some(0x0E)
    } else if eq_str(key, "lxi_d") {
        Some(0x11)
    } else if eq_str(key, "inx_d") {
        Some(0x13)
    } else if eq_str(key, "inr_d") {
        Some(0x14)
    } else if eq_str(key, "dcr_d") {
        Some(0x15)
    } else if eq_str(key, "mvi_d") {
        Some(0x16)
    } else if eq_str(key, "dad_d") {
        Some(0x19)
    } else if eq_str(key, "dcx_d") {
        Some(0x1B)
    } else if eq_str(key, "inr_e") {
        Some(0x1C)
    } else if eq_str(key, "dcr_e") {
        Some(0x1D)
    } else if eq_str(key, "mvi_e") {
        Some(0x1E)
    } else if eq_str(key, "lxi_h") {
        Some(0x21)
    } else if eq_str(key, "inx_h") {
        Some(0x23)
    } else if eq_str(key, "inr_h") {
        Some(0x24)
    } else if eq_str(key, "dcr_h") {
        Some(0x25)
    } else if eq_str(key, "mvi_h") {
        Some(0x26)
    } else if eq_str(key, "dad_h") {
        Some(0x29)
    } else if eq_str(key, "dcx_h") {
        Some(0x2B)
    } else if eq_str(key, "inr_l") {
        Some(0x2C)
    } else if eq_str(key, "dcr_l") {
        Some(0x2D)
    } else if eq_str(key, "mvi_l") {
        Some(0x2E)
    } else if eq_str(key, "inr_m") {
        Some(0x34)
    } else if eq_str(key, "dcr_m") {
        Some(0x35)
    } else if eq_str(key, "mvi_m") {
        Some(0x36)
    } else if eq_str(key, "inr_a") {
        Some(0x3C)
    } else if eq_str(key, "dcr_a") {
        Some(0x3D)
    } else if eq_str(key, "mvi_a") {
        Some(0x3E)
    } else if eq_str(key, "add_b") {
        Some(0x80)
    } else if eq_str(key, "add_c") {
        Some(0x81)
    } else if eq_str(key, "add_d") {
        Some(0x82)
    } else if eq_str(key, "add_e") {
        Some(0x83)
    } else if eq_str(key, "add_h") {
        Some(0x84)
    } else if eq_str(key, "add_l") {
        Some(0x85)
    } else if eq_str(key, "add_m") {
        Some(0x86)
    } else if eq_str(key, "add_a") {
        Some(0x87)
    } else if eq_str(key, "adc_b") {
        Some(0x88)
    } else if eq_str(key, "adc_c") {
        Some(0x89)
    } else if eq_str(key, "adc_d") {
        Some(0x8A)
    } else if eq_str(key, "adc_e") {
        Some(0x8B)
    } else if eq_str(key, "adc_h") {
        Some(0x8C)
    } else if eq_str(key, "adc_l") {
        Some(0x8D)
    } else if eq_str(key, "adc_m") {
        Some(0x8E)
    } else if eq_str(key, "adc_a") {
        Some(0x8F)
    } else if eq_str(key, "sub_b") {
        Some(0x90)
    } else if eq_str(key, "sub_c") {
        Some(0x91)
    } else if eq_str(key, "sub_d") {
        Some(0x92)
    } else if eq_str(key, "sub_e") {
        Some(0x93)
    } else if eq_str(key, "sub_h") {
        Some(0x94)
    } else if eq_str(key, "sub_l") {
        Some(0x95)
    } else if eq_str(key, "sub_m") {
        Some(0x96)
    } else if eq_str(key, "sub_a") {
        Some(0x97)
    } else if eq_str(key, "sbb_b") {
        Some(0x98)
    } else if eq_str(key, "sbb_c") {
        Some(0x99)
    } else if eq_str(key, "sbb_d") {
        Some(0x9A)
    } else if eq_str(key, "sbb_e") {
        Some(0x9B)
    } else if eq_str(key, "sbb_h") {
        Some(0x9C)
    } else if eq_str(key, "sbb_l") {
        Some(0x9D)
    } else if eq_str(key, "sbb_m") {
        Some(0x9E)
    } else if eq_str(key, "sbb_a") {
        Some(0x9F)
    } else if eq_str(key, "ana_b") {
        Some(0xA0)
    } else if eq_str(key, "ana_c") {
        Some(0xA1)
    } else if eq_str(key, "ana_d") {
        Some(0xA2)
    } else if eq_str(key, "ana_e") {
        Some(0xA3)
    } else if eq_str(key, "ana_h") {
        Some(0xA4)
    } else if eq_str(key, "ana_l") {
        Some(0xA5)
    } else if eq_str(key, "ana_m") {
        Some(0xA6)
    } else if eq_str(key, "ana_a") {
        Some(0xA7)
    } else if eq_str(key, "xra_b") {
        Some(0xA8)
    } else if eq_str(key, "xra_c") {
        Some(0xA9)
    } else if eq_str(key, "xra_d") {
        Some(0xAA)
    } else if eq_str(key, "xra_e") {
        Some(0xAB)
    } else if eq_str(key, "xra_h") {
        Some(0xAC)
    } else if eq_str(key, "xra_l") {
        Some(0xAD)
    } else if eq_str(key, "xra_m") {
        Some(0xAE)
    } else if eq_str(key, "xra_a") {
        Some(0xAF)
    } else if eq_str(key, "ora_b") {
        Some(0xB0)
    } else if eq_str(key, "ora_c") {
        Some(0xB1)
    } else if eq_str(key, "ora_d") {
        Some(0xB2)
    } else if eq_str(key, "ora_e") {
        Some(0xB3)
    } else if eq_str(key, "ora_h") {
        Some(0xB4)
    } else if eq_str(key, "ora_l") {
        Some(0xB5)
    } else if eq_str(key, "ora_m") {
        Some(0xB6)
    } else if eq_str(key, "ora_a") {
        Some(0xB7)
    } else if eq_str(key, "cmp_b") {
        Some(0xB8)
    } else if eq_str(key, "cmp_c") {
        Some(0xB9)
    } else if eq_str(key, "cmp_d") {
        Some(0xBA)
    } else if eq_str(key, "cmp_e") {
        Some(0xBB)
    } else if eq_str(key, "cmp_h") {
        Some(0xBC)
    } else if eq_str(key, "cmp_l") {
        Some(0xBD)
    } else if eq_str(key, "cmp_m") {
        Some(0xBE)
    } else if eq_str(key, "cmp_a") {
        Some(0xBF)
    } else if eq_str(key, "pop_b") {
        Some(0xC1)
    } else if eq_str(key, "rst_0") {
        Some(0xC7)
    } else if eq_str(key, "rst_1") {
        Some(0xCF)
    } else if eq_str(key, "pop_d") {
        Some(0xD1)
    } else if eq_str(key, "rst_2") {
        Some(0xD7)
    } else if eq_str(key, "rst_3") {
        Some(0xDF)
    } else if eq_str(key, "pop_h") {
        Some(0xE1)
    } else if eq_str(key, "rst_4") {
        Some(0xE7)
    } else if eq_str(key, "rst_5") {
        Some(0xEF)
    } else if eq_str(key, "rst_6") {
        Some(0xF7)
    } else if eq_str(key, "rst_7") {
        Some(0xFF)
    } else {
        None
    }
}

#[verifier::rlimit(100)]
#[verifier::spinoff_prover]
fn get_opcode_len6(key: &Vec<char>) -> (r: Option<u8>)
    requires
        key@.len() == 6,
    ensures
        r == spec_opcode_len6(key@),
{
    if eq_str(key, "stax_b") {
        Some(0x02)
    } else if eq_str(key, "ldax_b") {
        Some(0x0A)
    } else if eq_str(key, "stax_d") {
        Some(0x12)
    } else if eq_str(key, "ldax_d") {
        Some(0x1A)
    } else if eq_str(key, "lxi_sp") {
        Some(0x31)
    } else if eq_str(key, "inx_sp") {
        Some(0x33)
    } else if eq_str(key, "dad_sp") {
        Some(0x39)
    } else if eq_str(key, "dcx_sp") {
        Some(0x3B)
    } else if eq_str(key, "push_b") {
        Some(0xC5)
    } else if eq_str(key, "push_d") {
        Some(0xD5)
    } else if eq_str(key, "push_h") {
        Some(0xE5)
    } else {
        None
    }
}

#[verifier::rlimit(100)]
#[verifier::spinoff_prover]
fn get_opcode_len7(key: &Vec<char>) -> (r: Option<u8>)
    requires
        key@.len() == 7,
    ensures
        r == spec_opcode_len7(key@),
{
    if eq_str(key, "mov_b_b") {
        Some(0x40)
    } else if eq_str(key, "mov_b_c") {
        Some(0x41)
    } else if eq_str(key, "mov_b_d") {
        Some(0x42)
    } else if eq_str(key, "mov_b_e") {
        Some(0x43)
    } else if eq_str(key, "mov_b_h") {
        Some(0x44)
    } else if eq_str(key, "mov_b_l") {
        Some(0x45)
    } else if eq_str(key, "mov_b_m") {
        Some(0x46)
    } else if eq_str(key, "mov_b_a") {
        Some(0x47)
    } else if eq_str(key, "mov_c_b") {
        Some(0x48)
    } else if eq_str(key, "mov_c_c") {
        Some(0x49)
    } else if eq_str(key, "mov_c_d") {
        Some(0x4A)
    } else if eq_str(key, "mov_c_e") {
        Some(0x4B)
    } else if eq_str(key, "mov_c_h") {
        Some(0x4C)
    } else if eq_str(key, "mov_c_l") {
        Some(0x4D)
    } else if eq_str(key, "mov_c_m") {
        Some(0x4E)
    } else if eq_str(key, "mov_c_a") {
        Some(0x4F)
    } else if eq_str(key, "mov_d_b") {
        Some(0x50)
    } else if eq_str(key, "mov_d_c") {
        Some(0x51)
    } else if eq_str(key, "mov_d_d") {
        Some(0x52)
    } else if eq_str(key, "mov_d_e") {
        Some(0x53)
    } else if eq_str(key, "mov_d_h") {
        Some(0x54)
    } else if eq_str(key, "mov_d_l") {
        Some(0x55)
    } else if eq_str(key, "mov_d_m") {
        Some(0x56)
    } else if eq_str(key, "mov_d_a") {
        Some(0x57)
    } else if eq_str(key, "mov_e_b") {
        Some(0x58)
    } else if eq_str(key, "mov_e_c") {
        Some(0x59)
    } else if eq_str(key, "mov_e_d") {
        Some(0x5A)
    } else if eq_str(key, "mov_e_e") {
        Some(0x5B)
    } else if eq_str(key, "mov_e_h") {
        Some(0x5C)
    } else if eq_str(key, "mov_e_l") {
        Some(0x5D)
    } else if eq_str(key, "mov_e_m") {
        Some(0x5E)
    } else if eq_str(key, "mov_e_a") {
        Some(0x5F)
    } else if eq_str(key, "mov_h_b") {
        Some(0x60)
    } else if eq_str(key, "mov_h_c") {
        Some(0x61)
    } else if eq_str(key, "mov_h_d") {
        Some(0x62)
    } else if eq_str(key, "mov_h_e") {
        Some(0x63)
    } else if eq_str(key, "mov_h_h") {
        Some(0x64)
    } else if eq_str(key, "mov_h_l") {
        Some(0x65)
    } else if eq_str(key, "mov_h_m") {
        Some(0x66)
    } else if eq_str(key, "mov_h_a") {
        Some(0x67)
    } else if eq_str(key, "mov_l_b") {
        Some(0x68)
    } else if eq_str(key, "mov_l_c") {
        Some(0x69)
    } else if eq_str(key, "mov_l_d") {
        Some(0x6A)
    } else if eq_str(key, "mov_l_e") {
        Some(0x6B)
    } else if eq_str(key, "mov_l_h") {
        Some(0x6C)
    } else if eq_str(key, "mov_l_l") {
        Some(0x6D)
    } else if eq_str(key, "mov_l_m") {
        Some(0x6E)
    } else if eq_str(key, "mov_l_a") {
        Some(0x6F)
    } else if eq_str(key, "mov_m_b") {
        Some(0x70)
    } else if eq_str(key, "mov_m_c") {
        Some(0x71)
    } else if eq_str(key, "mov_m_d") {
        Some(0x72)
    } else if eq_str(key, "mov_m_e") {
        Some(0x73)
    } else if eq_str(key, "mov_m_h") {
        Some(0x74)
    } else if eq_str(key, "mov_m_l") {
        Some(0x75)
    } else if eq_str(key, "mov_m_a") {
        Some(0x77)
    } else if eq_str(key, "mov_a_b") {
        Some(0x78)
    } else if eq_str(key, "mov_a_c") {
        Some(0x79)
    } else if eq_str(key, "mov_a_d") {
        Some(0x7A)
    } else if eq_str(key, "mov_a_e") {
        Some(0x7B)
    } else if eq_str(key, "mov_a_h") {
        Some(0x7C)
    } else if eq_str(key, "mov_a_l") {
        Some(0x7D)
    } else if eq_str(key, "mov_a_m") {
        Some(0x7E)
    } else if eq_str(key, "mov_a_a") {
        Some(0x7F)
    } else if eq_str(key, "pop_psw") {
        Some(0xF1)
    } else {
        None
    }
}

#[verifier::rlimit(100)]
#[verifier::spinoff_prover]
fn get_opcode_len8(key: &Vec<char>) -> (r: Option<u8>)
    requires
        key@.len() == 8,
    ensures
        r == spec_opcode_len8(key@),
{
    if eq_str(key, "push_psw") {
        Some(0xF5)
    } else {
        None
    }
}

/// Looks up an instruction key in the opcode table.
pub fn get_opcode(key: &Vec<char>) -> (r: Option<u8>)
    ensures
        r == spec_opcode(key@),
{
    proof {
        reveal(spec_opcode);
    }
    let n = key.len();
    if n == 2 {
        get_opcode_len2(key)
    } else if n == 3 {
        get_opcode_len3(key)
    } else if n == 4 {
        get_opcode_len4(key)
    } else if n == 5 {
        get_opcode_len5(key)
    } else if n == 6 {
        get_opcode_len6(key)
    } else if n == 7 {
        get_opcode_len7(key)
    } else if n == 8 {
        get_opcode_len8(key)
    } else {
        None
    }
}

/// The instruction key of a defined opcode byte: the inverse
/// reading of the table.
#[verifier::opaque]
pub open spec fn spec_key_of(b: u8) -> Option<Seq<char>> {
    if b == 0x00 {
        Some("nop"@)
    } else if b == 0x01 {
        Some("lxi_b"@)
    } else if b == 0x02 {
        Some("stax_b"@)
    } else if b == 0x03 {
        Some("inx_b"@)
    } else if b == 0x04 {
        Some("inr_b"@)
    } else if b == 0x05 {
        Some("dcr_b"@)
    } else if b == 0x06 {
        Some("mvi_b"@)
    } else if b == 0x07 {
        Some("rlc"@)
    } else if b == 0x09 {
        Some("dad_b"@)
    } else if b == 0x0A {
        Some("ldax_b"@)
    } else if b == 0x0B {
        Some("dcx_b"@)
    } else if b == 0x0C {
        Some("inr_c"@)
    } else if b == 0x0D {
        Some("dcr_c"@)
    } else if b == 0x0E {
        Some("mvi_c"@)
    } else if b == 0x0F {
        Some("rrc"@)
    } else if b == 0x11 {
        Some("lxi_d"@)
    } else if b == 0x12 {
        Some("stax_d"@)
    } else if b == 0x13 {
        Some("inx_d"@)
    } else if b == 0x14 {
        Some("inr_d"@)
    } else if b == 0x15 {
        Some("dcr_d"@)
    } else if b == 0x16 {
        Some("mvi_d"@)
    } else if b == 0x17 {
        Some("ral"@)
    } else if b == 0x19 {
        Some("dad_d"@)
    } else if b == 0x1A {
        Some("ldax_d"@)
    } else if b == 0x1B {
        Some("dcx_d"@)
    } else if b == 0x1C {
        Some("inr_e"@)
    } else if b == 0x1D {
        Some("dcr_e"@)
    } else if b == 0x1E {
        Some("mvi_e"@)
    } else if b == 0x1F {
        Some("rar"@)
    } else if b == 0x20 {
        Some("rim"@)
    } else if b == 0x21 {
        Some("lxi_h"@)
    } else if b == 0x22 {
        Some("shld"@)
    } else if b == 0x23 {
        Some("inx_h"@)
    } else if b == 0x24 {
        Some("inr_h"@)
    } else if b == 0x25 {
        Some("dcr_h"@)
    } else if b == 0x26 {
        Some("mvi_h"@)
    } else if b == 0x27 {
        Some("daa"@)
    } else if b == 0x29 {
        Some("dad_h"@)
    } else if b == 0x2A {
        Some("lhld"@)
    } else if b == 0x2B {
        Some("dcx_h"@)
    } else if b == 0x2C {
        Some("inr_l"@)
    } else if b == 0x2D {
        Some("dcr_l"@)
    } else if b == 0x2E {
        Some("mvi_l"@)
    } else if b == 0x2F {
        Some("cma"@)
    } else if b == 0x30 {
        Some("sim"@)
    } else if b == 0x31 {
        Some("lxi_sp"@)
    } else if b == 0x32 {
        Some("sta"@)
    } else if b == 0x33 {
        Some("inx_sp"@)
    } else if b == 0x34 {
        Some("inr_m"@)
    } else if b == 0x35 {
        Some("dcr_m"@)
    } else if b == 0x36 {
        Some("mvi_m"@)
    } else if b == 0x37 {
        Some("stc"@)
    } else if b == 0x39 {
        Some("dad_sp"@)
    } else if b == 0x3A {
        Some("lda"@)
    } else if b == 0x3B {
        Some("dcx_sp"@)
    } else if b == 0x3C {
        Some("inr_a"@)
    } else if b == 0x3D {
        Some("dcr_a"@)
    } else if b == 0x3E {
        Some("mvi_a"@)
    } else if b == 0x3F {
        Some("cmc"@)
    } else if b == 0x40 {
        Some("mov_b_b"@)
    } else if b == 0x41 {
        Some("mov_b_c"@)
    } else if b == 0x42 {
        Some("mov_b_d"@)
    } else if b == 0x43 {
        Some("mov_b_e"@)
    } else if b == 0x44 {
        Some("mov_b_h"@)
    } else if b == 0x45 {
        Some("mov_b_l"@)
    } else if b == 0x46 {
        Some("mov_b_m"@)
    } else if b == 0x47 {
        Some("mov_b_a"@)
    } else if b == 0x48 {
        Some("mov_c_b"@)
    } else if b == 0x49 {
        Some("mov_c_c"@)
    } else if b == 0x4A {
        Some("mov_c_d"@)
    } else if b == 0x4B {
        Some("mov_c_e"@)
    } else if b == 0x4C {
        Some("mov_c_h"@)
    } else if b == 0x4D {
        Some("mov_c_l"@)
    } else if b == 0x4E {
        Some("mov_c_m"@)
    } else if b == 0x4F {
        Some("mov_c_a"@)
    } else if b == 0x50 {
        Some("mov_d_b"@)
    } else if b == 0x51 {
        Some("mov_d_c"@)
    } else if b == 0x52 {
        Some("mov_d_d"@)
    } else if b == 0x53 {
        Some("mov_d_e"@)
    } else if b == 0x54 {
        Some("mov_d_h"@)
    } else if b == 0x55 {
        Some("mov_d_l"@)
    } else if b == 0x56 {
        Some("mov_d_m"@)
    } else if b == 0x57 {
        Some("mov_d_a"@)
    } else if b == 0x58 {
        Some("mov_e_b"@)
    } else if b == 0x59 {
        Some("mov_e_c"@)
    } else if b == 0x5A {
        Some("mov_e_d"@)
    } else if b == 0x5B {
        Some("mov_e_e"@)
    } else if b == 0x5C {
        Some("mov_e_h"@)
    } else if b == 0x5D {
        Some("mov_e_l"@)
    } else if b == 0x5E {
        Some("mov_e_m"@)
    } else if b == 0x5F {
        Some("mov_e_a"@)
    } else if b == 0x60 {
        Some("mov_h_b"@)
    } else if b == 0x61 {
        Some("mov_h_c"@)
    } else if b == 0x62 {
        Some("mov_h_d"@)
    } else if b == 0x63 {
        Some("mov_h_e"@)
    } else if b == 0x64 {
        Some("mov_h_h"@)
    } else if b == 0x65 {
        Some("mov_h_l"@)
    } else if b == 0x66 {
        Some("mov_h_m"@)
    } else if b == 0x67 {
        Some("mov_h_a"@)
    } else if b == 0x68 {
        Some("mov_l_b"@)
    } else if b == 0x69 {
        Some("mov_l_c"@)
    } else if b == 0x6A {
        Some("mov_l_d"@)
    } else if b == 0x6B {
        Some("mov_l_e"@)
    } else if b == 0x6C {
        Some("mov_l_h"@)
    } else if b == 0x6D {
        Some("mov_l_l"@)
    } else if b == 0x6E {
        Some("mov_l_m"@)
    } else if b == 0x6F {
        Some("mov_l_a"@)
    } else if b == 0x70 {
        Some("mov_m_b"@)
    } else if b == 0x71 {
        Some("mov_m_c"@)
    } else if b == 0x72 {
        Some("mov_m_d"@)
    } else if b == 0x73 {
        Some("mov_m_e"@)
    } else if b == 0x74 {
        Some("mov_m_h"@)
    } else if b == 0x75 {
        Some("mov_m_l"@)
    } else if b == 0x76 {
        Some("hlt"@)
    } else if b == 0x77 {
        Some("mov_m_a"@)
    } else if b == 0x78 {
        Some("mov_a_b"@)
    } else if b == 0x79 {
        Some("mov_a_c"@)
    } else if b == 0x7A {
        Some("mov_a_d"@)
    } else if b == 0x7B {
        Some("mov_a_e"@)
    } else if b == 0x7C {
        Some("mov_a_h"@)
    } else if b == 0x7D {
        Some("mov_a_l"@)
    } else if b == 0x7E {
        Some("mov_a_m"@)
    } else if b == 0x7F {
        Some("mov_a_a"@)
    } else if b == 0x80 {
        Some("add_b"@)
    } else if b == 0x81 {
        Some("add_c"@)
    } else if b == 0x82 {
        Some("add_d"@)
    } else if b == 0x83 {
        Some("add_e"@)
    } else if b == 0x84 {
        Some("add_h"@)
    } else if b == 0x85 {
        Some("add_l"@)
    } else if b == 0x86 {
        Some("add_m"@)
    } else if b == 0x87 {
        Some("add_a"@)
    } else if b == 0x88 {
        Some("adc_b"@)
    } else if b == 0x89 {
        Some("adc_c"@)
    } else if b == 0x8A {
        Some("adc_d"@)
    } else if b == 0x8B {
        Some("adc_e"@)
    } else if b == 0x8C {
        Some("adc_h"@)
    } else if b == 0x8D {
        Some("adc_l"@)
    } else if b == 0x8E {
        Some("adc_m"@)
    } else if b == 0x8F {
        Some("adc_a"@)
    } else if b == 0x90 {
        Some("sub_b"@)
    } else if b == 0x91 {
        Some("sub_c"@)
    } else if b == 0x92 {
        Some("sub_d"@)
    } else if b == 0x93 {
        Some("sub_e"@)
    } else if b == 0x94 {
        Some("sub_h"@)
    } else if b == 0x95 {
        Some("sub_l"@)
    } else if b == 0x96 {
        Some("sub_m"@)
    } else if b == 0x97 {
        Some("sub_a"@)
    } else if b == 0x98 {
        Some("sbb_b"@)
    } else if b == 0x99 {
        Some("sbb_c"@)
    } else if b == 0x9A {
        Some("sbb_d"@)
    } else if b == 0x9B {
        Some("sbb_e"@)
    } else if b == 0x9C {
        Some("sbb_h"@)
    } else if b == 0x9D {
        Some("sbb_l"@)
    } else if b == 0x9E {
        Some("sbb_m"@)
    } else if b == 0x9F {
        Some("sbb_a"@)
    } else if b == 0xA0 {
        Some("ana_b"@)
    } else if b == 0xA1 {
        Some("ana_c"@)
    } else if b == 0xA2 {
        Some("ana_d"@)
    } else if b == 0xA3 {
        Some("ana_e"@)
    } else if b == 0xA4 {
        Some("ana_h"@)
    } else if b == 0xA5 {
        Some("ana_l"@)
    } else if b == 0xA6 {
        Some("ana_m"@)
    } else if b == 0xA7 {
        Some("ana_a"@)
    } else if b == 0xA8 {
        Some("xra_b"@)
    } else if b == 0xA9 {
        Some("xra_c"@)
    } else if b == 0xAA {
        Some("xra_d"@)
    } else if b == 0xAB {
        Some("xra_e"@)
    } else if b == 0xAC {
        Some("xra_h"@)
    } else if b == 0xAD {
        Some("xra_l"@)
    } else if b == 0xAE {
        Some("xra_m"@)
    } else if b == 0xAF {
        Some("xra_a"@)
    } else if b == 0xB0 {
        Some("ora_b"@)
    } else if b == 0xB1 {
        Some("ora_c"@)
    } else if b == 0xB2 {
        Some("ora_d"@)
    } else if b == 0xB3 {
        Some("ora_e"@)
    } else if b == 0xB4 {
        Some("ora_h"@)
    } else if b == 0xB5 {
        Some("ora_l"@)
    } else if b == 0xB6 {
        Some("ora_m"@)
    } else if b == 0xB7 {
        Some("ora_a"@)
    } else if b == 0xB8 {
        Some("cmp_b"@)
    } else if b == 0xB9 {
        Some("cmp_c"@)
    } else if b == 0xBA {
        Some("cmp_d"@)
    } else if b == 0xBB {
        Some("cmp_e"@)
    } else if b == 0xBC {
        Some("cmp_h"@)
    } else if b == 0xBD {
        Some("cmp_l"@)
    } else if b == 0xBE {
        Some("cmp_m"@)
    } else if b == 0xBF {
        Some("cmp_a"@)
    } else if b == 0xC0 {
        Some("rnz"@)
    } else if b == 0xC1 {
        Some("pop_b"@)
    } else if b == 0xC2 {
        Some("jnz"@)
    } else if b == 0xC3 {
        Some("jmp"@)
    } else if b == 0xC4 {
        Some("cnz"@)
    } else if b == 0xC5 {
        Some("push_b"@)
    } else if b == 0xC6 {
        Some("adi"@)
    } else if b == 0xC7 {
        Some("rst_0"@)
    } else if b == 0xC8 {
        Some("rz"@)
    } else if b == 0xC9 {
        Some("ret"@)
    } else if b == 0xCA {
        Some("jz"@)
    } else if b == 0xCC {
        Some("cz"@)
    } else if b == 0xCD {
        Some("call"@)
    } else if b == 0xCE {
        Some("aci"@)
    } else if b == 0xCF {
        Some("rst_1"@)
    } else if b == 0xD0 {
        Some("rnc"@)
    } else if b == 0xD1 {
        Some("pop_d"@)
    } else if b == 0xD2 {
        Some("jnc"@)
    } else if b == 0xD3 {
        Some("out"@)
    } else if b == 0xD4 {
        Some("cnc"@)
    } else if b == 0xD5 {
        Some("push_d"@)
    } else if b == 0xD6 {
        Some("sui"@)
    } else if b == 0xD7 {
        Some("rst_2"@)
    } else if b == 0xD8 {
        Some("rc"@)
    } else if b == 0xDA {
        Some("jc"@)
    } else if b == 0xDB {
        Some("in"@)
    } else if b == 0xDC {
        Some("cc"@)
    } else if b == 0xDE {
        Some("sbi"@)
    } else if b == 0xDF {
        Some("rst_3"@)
    } else if b == 0xE0 {
        Some("rpo"@)
    } else if b == 0xE1 {
        Some("pop_h"@)
    } else if b == 0xE2 {
        Some("jpo"@)
    } else if b == 0xE3 {
        Some("xthl"@)
    } else if b == 0xE4 {
        Some("cpo"@)
    } else if b == 0xE5 {
        Some("push_h"@)
    } else if b == 0xE6 {
        Some("ani"@)
    } else if b == 0xE7 {
        Some("rst_4"@)
    } else if b == 0xE8 {
        Some("rpe"@)
    } else if b == 0xE9 {
        Some("pchl"@)
    } else if b == 0xEA {
        Some("jpe"@)
    } else if b == 0xEB {
        Some("xchg"@)
    } else if b == 0xEC {
        Some("cpe"@)
    } else if b == 0xEE {
        Some("xri"@)
    } else if b == 0xEF {
        Some("rst_5"@)
    } else if b == 0xF0 {
        Some("rp"@)
    } else if b == 0xF1 {
        Some("pop_psw"@)
    } else if b == 0xF2 {
        Some("jp"@)
    } else if b == 0xF3 {
        Some("di"@)
    } else if b == 0xF4 {
        Some("cp"@)
    } else if b == 0xF5 {
        Some("push_psw"@)
    } else if b == 0xF6 {
        Some("ori"@)
    } else if b == 0xF7 {
        Some("rst_6"@)
    } else if b == 0xF8 {
        Some("rm"@)
    } else if b == 0xF9 {
        Some("sphl"@)
    } else if b == 0xFA {
        Some("jm"@)
    } else if b == 0xFB {
        Some("ei"@)
    } else if b == 0xFC {
        Some("cm"@)
    } else if b == 0xFE {
        Some("cpi"@)
    } else if b == 0xFF {
        Some("rst_7"@)
    } else {
        None
    }
}

#[verifier::rlimit(100)]
#[verifier::spinoff_prover]
proof fn lemma_key_of_len2(k: Seq<char>, b: u8)
    requires
        spec_opcode_len2(k) == Some(b),
    ensures
        spec_key_of(b) == Some(k),
{
    reveal(spec_key_of);
}

#[verifier::rlimit(100)]
#[verifier::spinoff_prover]
proof fn lemma_key_of_len3(k: Seq<char>, b: u8)
    requires
        spec_opcode_len3(k) == Some(b),
    ensures
        spec_key_of(b) == Some(k),
{
    reveal(spec_key_of);
}

#[verifier::rlimit(100)]
#[verifier::spinoff_prover]
proof fn lemma_key_of_len4(k: Seq<char>, b: u8)
    requires
        spec_opcode_len4(k) == Some(b),
    ensures
        spec_key_of(b) == Some(k),
{
    reveal(spec_key_of);
}

#[verifier::rlimit(100)]
#[verifier::spinoff_prover]
proof fn lemma_key_of_len5(k: Seq<char>, b: u8)
    requires
        spec_opcode_len5(k) == Some(b),
    ensures
        spec_key_of(b) == Some(k),
{
    reveal(spec_key_of);
}

#[verifier::rlimit(100)]
#[verifier::spinoff_prover]
proof fn lemma_key_of_len6(k: Seq<char>, b: u8)
    requires
        spec_opcode_len6(k) == Some(b),
    ensures
        spec_key_of(b) == Some(k),
{
    reveal(spec_key_of);
}

#[verifier::rlimit(100)]
#[verifier::spinoff_prover]
proof fn lemma_key_of_len7(k: Seq<char>, b: u8)
    requires
        spec_opcode_len7(k) == Some(b),
    ensures
        spec_key_of(b) == Some(k),
{
    reveal(spec_key_of);
}

#[verifier::rlimit(100)]
#[verifier::spinoff_prover]
proof fn lemma_key_of_len8(k: Seq<char>, b: u8)
    requires
        spec_opcode_len8(k) == Some(b),
    ensures
        spec_key_of(b) == Some(k),
{
    reveal(spec_key_of);
}

/// Every defined key names one opcode byte: if two keys map to the
/// same byte, they are the same key.  Reading the table backwards
/// through [`spec_key_of`] recovers the key exactly.
pub proof fn lemma_opcode_unique(k1: Seq<char>, k2: Seq<char>, b: u8)
    requires
        spec_opcode(k1) == Some(b),
        spec_opcode(k2) == Some(b),
    ensures
        k1 == k2,
{
    lemma_opcode_key_of(k1, b);
    lemma_opcode_key_of(k2, b);
}

/// A defined table entry is recorded in the inverse reading.
pub proof fn lemma_opcode_key_of(k: Seq<char>, b: u8)
    requires
        spec_opcode(k) == Some(b),
    ensures
        spec_key_of(b) == Some(k),
{
    reveal(spec_opcode);

    if k.len() == 2 {
        lemma_key_of_len2(k, b);
    }
    if k.len() == 3 {
        lemma_key_of_len3(k, b);
    }
    if k.len() == 4 {
        lemma_key_of_len4(k, b);
    }
    if k.len() == 5 {
        lemma_key_of_len5(k, b);
    }
    if k.len() == 6 {
        lemma_key_of_len6(k, b);
    }
    if k.len() == 7 {
        lemma_key_of_len7(k, b);
    }
    if k.len() == 8 {
        lemma_key_of_len8(k, b);
    }
}

/// The length and fingerprint of every key in this group, pinned
/// once so that lookups in the group go by integer comparison.
#[verifier::rlimit(100)]
#[verifier::spinoff_prover]
proof fn lemma_codes_len2()
    ensures
        "rz"@.len() == 2 && key_code("rz"@) == 0x200000000003d72,
        "jz"@.len() == 2 && key_code("jz"@) == 0x200000000003d6a,
        "cz"@.len() == 2 && key_code("cz"@) == 0x200000000003d63,
        "rc"@.len() == 2 && key_code("rc"@) == 0x2000000000031f2,
        "jc"@.len() == 2 && key_code("jc"@) == 0x2000000000031ea,
        "in"@.len() == 2 && key_code("in"@) == 0x200000000003769,
        "cc"@.len() == 2 && key_code("cc"@) == 0x2000000000031e3,
        "rp"@.len() == 2 && key_code("rp"@) == 0x200000000003872,
        "jp"@.len() == 2 && key_code("jp"@) == 0x20000000000386a,
        "di"@.len() == 2 && key_code("di"@) == 0x2000000000034e4,
        "cp"@.len() == 2 && key_code("cp"@) == 0x200000000003863,
        "rm"@.len() == 2 && key_code("rm"@) == 0x2000000000036f2,
        "jm"@.len() == 2 && key_code("jm"@) == 0x2000000000036ea,
        "ei"@.len() == 2 && key_code("ei"@) == 0x2000000000034e5,
        "cm"@.len() == 2 && key_code("cm"@) == 0x2000000000036e3,
{
    reveal_strlit("rz");
    reveal_strlit("jz");
    reveal_strlit("cz");
    reveal_strlit("rc");
    reveal_strlit("jc");
    reveal_strlit("in");
    reveal_strlit("cc");
    reveal_strlit("rp");
    reveal_strlit("jp");
    reveal_strlit("di");
    reveal_strlit("cp");
    reveal_strlit("rm");
    reveal_strlit("jm");
    reveal_strlit("ei");
    reveal_strlit("cm");
}

/// The length and fingerprint of every key in this group, pinned
/// once so that lookups in the group go by integer comparison.
#[verifier::rlimit(100)]
#[verifier::spinoff_prover]
proof fn lemma_codes_len3()
    ensures
        "nop"@.len() == 3 && key_code("nop"@) == 0x3000000001c37ee,
        "rlc"@.len() == 3 && key_code("rlc"@) == 0x30000000018f672,
        "rrc"@.len() == 3 && key_code("rrc"@) == 0x30000000018f972,
        "ral"@.len() == 3 && key_code("ral"@) == 0x3000000001b30f2,
        "rar"@.len() == 3 && key_code("rar"@) == 0x3000000001cb0f2,
        "rim"@.len() == 3 && key_code("rim"@) == 0x3000000001b74f2,
        "daa"@.len() == 3 && key_code("daa"@) == 0x3000000001870e4,
        "cma"@.len() == 3 && key_code("cma"@) == 0x3000000001876e3,
        "sim"@.len() == 3 && key_code("sim"@) == 0x3000000001b74f3,
        "sta"@.len() == 3 && key_code("sta"@) == 0x300000000187a73,
        "stc"@.len() == 3 && key_code("stc"@) == 0x30000000018fa73,
        "lda"@.len() == 3 && key_code("lda"@) == 0x30000000018726c,
        "cmc"@.len() == 3 && key_code("cmc"@) == 0x30000000018f6e3,
        "hlt"@.len() == 3 && key_code("hlt"@) == 0x3000000001d3668,
        "rnz"@.len() == 3 && key_code("rnz"@) == 0x3000000001eb772,
        "jnz"@.len() == 3 && key_code("jnz"@) == 0x3000000001eb76a,
        "jmp"@.len() == 3 && key_code("jmp"@) == 0x3000000001c36ea,
        "cnz"@.len() == 3 && key_code("cnz"@) == 0x3000000001eb763,
        "adi"@.len() == 3 && key_code("adi"@) == 0x3000000001a7261,
        "ret"@.len() == 3 && key_code("ret"@) == 0x3000000001d32f2,
        "aci"@.len() == 3 && key_code("aci"@) == 0x3000000001a71e1,
        "rnc"@.len() == 3 && key_code("rnc"@) == 0x30000000018f772,
        "jnc"@.len() == 3 && key_code("jnc"@) == 0x30000000018f76a,
        "out"@.len() == 3 && key_code("out"@) == 0x3000000001d3aef,
        "cnc"@.len() == 3 && key_code("cnc"@) == 0x30000000018f763,
        "sui"@.len() == 3 && key_code("sui"@) == 0x3000000001a7af3,
        "sbi"@.len() == 3 && key_code("sbi"@) == 0x3000000001a7173,
        "rpo"@.len() == 3 && key_code("rpo"@) == 0x3000000001bf872,
        "jpo"@.len() == 3 && key_code("jpo"@) == 0x3000000001bf86a,
        "cpo"@.len() == 3 && key_code("cpo"@) == 0x3000000001bf863,
        "ani"@.len() == 3 && key_code("ani"@) == 0x3000000001a7761,
        "rpe"@.len() == 3 && key_code("rpe"@) == 0x300000000197872,
        "jpe"@.len() == 3 && key_code("jpe"@) == 0x30000000019786a,
        "cpe"@.len() == 3 && key_code("cpe"@) == 0x300000000197863,
        "xri"@.len() == 3 && key_code("xri"@) == 0x3000000001a7978,
        "ori"@.len() == 3 && key_code("ori"@) == 0x3000000001a796f,
        "cpi"@.len() == 3 && key_code("cpi"@) == 0x3000000001a7863,
{
    reveal_strlit("nop");
    reveal_strlit("rlc");
    reveal_strlit("rrc");
    reveal_strlit("ral");
    reveal_strlit("rar");
    reveal_strlit("rim");
    reveal_strlit("daa");
    reveal_strlit("cma");
    reveal_strlit("sim");
    reveal_strlit("sta");
    reveal_strlit("stc");
    reveal_strlit("lda");
    reveal_strlit("cmc");
    reveal_strlit("hlt");
    reveal_strlit("rnz");
    reveal_strlit("jnz");
    reveal_strlit("jmp");
    reveal_strlit("cnz");
    reveal_strlit("adi");
    reveal_strlit("ret");
    reveal_strlit("aci");
    reveal_strlit("rnc");
    reveal_strlit("jnc");
    reveal_strlit("out");
    reveal_strlit("cnc");
    reveal_strlit("sui");
    reveal_strlit("sbi");
    reveal_strlit("rpo");
    reveal_strlit("jpo");
    reveal_strlit("cpo");
    reveal_strlit("ani");
    reveal_strlit("rpe");
    reveal_strlit("jpe");
    reveal_strlit("cpe");
    reveal_strlit("xri");
    reveal_strlit("ori");
    reveal_strlit("cpi");
}

/// The length and fingerprint of every key in this group, pinned
/// once so that lookups in the group go by integer comparison.
#[verifier::rlimit(100)]
#[verifier::spinoff_prover]
proof fn lemma_codes_len4()
    ensures
        "shld"@.len() == 4 && key_code("shld"@) == 0x40000000c9b3473,
        "lhld"@.len() == 4 && key_code("lhld"@) == 0x40000000c9b346c,
        "call"@.len() == 4 && key_code("call"@) == 0x40000000d9b30e3,
        "xthl"@.len() == 4 && key_code("xthl"@) == 0x40000000d9a3a78,
        "pchl"@.len() == 4 && key_code("pchl"@) == 0x40000000d9a31f0,
        "xchg"@.len() == 4 && key_code("xchg"@) == 0x40000000cfa31f8,
        "sphl"@.len() == 4 && key_code("sphl"@) == 0x40000000d9a3873,
{
    reveal_strlit("shld");
    reveal_strlit("lhld");
    reveal_strlit("call");
    reveal_strlit("xthl");
    reveal_strlit("pchl");
    reveal_strlit("xchg");
    reveal_strlit("sphl");
}

/// The length and fingerprint of every key in this group, pinned
/// once so that lookups in the group go by integer comparison.
#[verifier::rlimit(100)]
#[verifier::spinoff_prover]
proof fn lemma_codes_len5()
    ensures
        "lxi_b"@.len() == 5 && key_code("lxi_b"@) == 0x50000062bfa7c6c,
        "inx_b"@.len() == 5 && key_code("inx_b"@) == 0x50000062bfe3769,
        "inr_b"@.len() == 5 && key_code("inr_b"@) == 0x50000062bfcb769,
        "dcr_b"@.len() == 5 && key_code("dcr_b"@) == 0x50000062bfcb1e4,
        "mvi_b"@.len() == 5 && key_code("mvi_b"@) == 0x50000062bfa7b6d,
        "dad_b"@.len() == 5 && key_code("dad_b"@) == 0x50000062bf930e4,
        "dcx_b"@.len() == 5 && key_code("dcx_b"@) == 0x50000062bfe31e4,
        "inr_c"@.len() == 5 && key_code("inr_c"@) == 0x50000063bfcb769,
        "dcr_c"@.len() == 5 && key_code("dcr_c"@) == 0x50000063bfcb1e4,
        "mvi_c"@.len() == 5 && key_code("mvi_c"@) == 0x50000063bfa7b6d,
        "lxi_d"@.len() == 5 && key_code("lxi_d"@) == 0x50000064bfa7c6c,
        "inx_d"@.len() == 5 && key_code("inx_d"@) == 0x50000064bfe3769,
        "inr_d"@.len() == 5 && key_code("inr_d"@) == 0x50000064bfcb769,
        "dcr_d"@.len() == 5 && key_code("dcr_d"@) == 0x50000064bfcb1e4,
        "mvi_d"@.len() == 5 && key_code("mvi_d"@) == 0x50000064bfa7b6d,
        "dad_d"@.len() == 5 && key_code("dad_d"@) == 0x50000064bf930e4,
        "dcx_d"@.len() == 5 && key_code("dcx_d"@) == 0x50000064bfe31e4,
        "inr_e"@.len() == 5 && key_code("inr_e"@) == 0x50000065bfcb769,
        "dcr_e"@.len() == 5 && key_code("dcr_e"@) == 0x50000065bfcb1e4,
        "mvi_e"@.len() == 5 && key_code("mvi_e"@) == 0x50000065bfa7b6d,
        "lxi_h"@.len() == 5 && key_code("lxi_h"@) == 0x50000068bfa7c6c,
        "inx_h"@.len() == 5 && key_code("inx_h"@) == 0x50000068bfe3769,
        "inr_h"@.len() == 5 && key_code("inr_h"@) == 0x50000068bfcb769,
        "dcr_h"@.len() == 5 && key_code("dcr_h"@) == 0x50000068bfcb1e4,
        "mvi_h"@.len() == 5 && key_code("mvi_h"@) == 0x50000068bfa7b6d,
        "dad_h"@.len() == 5 && key_code("dad_h"@) == 0x50000068bf930e4,
        "dcx_h"@.len() == 5 && key_code("dcx_h"@) == 0x50000068bfe31e4,
        "inr_l"@.len() == 5 && key_code("inr_l"@) == 0x5000006cbfcb769,
        "dcr_l"@.len() == 5 && key_code("dcr_l"@) == 0x5000006cbfcb1e4,
        "mvi_l"@.len() == 5 && key_code("mvi_l"@) == 0x5000006cbfa7b6d,
        "inr_m"@.len() == 5 && key_code("inr_m"@) == 0x5000006dbfcb769,
        "dcr_m"@.len() == 5 && key_code("dcr_m"@) == 0x5000006dbfcb1e4,
        "mvi_m"@.len() == 5 && key_code("mvi_m"@) == 0x5000006dbfa7b6d,
        "inr_a"@.len() == 5 && key_code("inr_a"@) == 0x50000061bfcb769,
        "dcr_a"@.len() == 5 && key_code("dcr_a"@) == 0x50000061bfcb1e4,
        "mvi_a"@.len() == 5 && key_code("mvi_a"@) == 0x50000061bfa7b6d,
        "add_b"@.len() == 5 && key_code("add_b"@) == 0x50000062bf93261,
        "add_c"@.len() == 5 && key_code("add_c"@) == 0x50000063bf93261,
        "add_d"@.len() == 5 && key_code("add_d"@) == 0x50000064bf93261,
        "add_e"@.len() == 5 && key_code("add_e"@) == 0x50000065bf93261,
        "add_h"@.len() == 5 && key_code("add_h"@) == 0x50000068bf93261,
        "add_l"@.len() == 5 && key_code("add_l"@) == 0x5000006cbf93261,
        "add_m"@.len() == 5 && key_code("add_m"@) == 0x5000006dbf93261,
        "add_a"@.len() == 5 && key_code("add_a"@) == 0x50000061bf93261,
        "adc_b"@.len() == 5 && key_code("adc_b"@) == 0x50000062bf8f261,
        "adc_c"@.len() == 5 && key_code("adc_c"@) == 0x50000063bf8f261,
        "adc_d"@.len() == 5 && key_code("adc_d"@) == 0x50000064bf8f261,
        "adc_e"@.len() == 5 && key_code("adc_e"@) == 0x50000065bf8f261,
        "adc_h"@.len() == 5 && key_code("adc_h"@) == 0x50000068bf8f261,
        "adc_l"@.len() == 5 && key_code("adc_l"@) == 0x5000006cbf8f261,
        "adc_m"@.len() == 5 && key_code("adc_m"@) == 0x5000006dbf8f261,
        "adc_a"@.len() == 5 && key_code("adc_a"@) == 0x50000061bf8f261,
        "sub_b"@.len() == 5 && key_code("sub_b"@) == 0x50000062bf8baf3,
        "sub_c"@.len() == 5 && key_code("sub_c"@) == 0x50000063bf8baf3,
        "sub_d"@.len() == 5 && key_code("sub_d"@) == 0x50000064bf8baf3,
        "sub_e"@.len() == 5 && key_code("sub_e"@) == 0x50000065bf8baf3,
        "sub_h"@.len() == 5 && key_code("sub_h"@) == 0x50000068bf8baf3,
        "sub_l"@.len() == 5 && key_code("sub_l"@) == 0x5000006cbf8baf3,
        "sub_m"@.len() == 5 && key_code("sub_m"@) == 0x5000006dbf8baf3,
        "sub_a"@.len() == 5 && key_code("sub_a"@) == 0x50000061bf8baf3,
        "sbb_b"@.len() == 5 && key_code("sbb_b"@) == 0x50000062bf8b173,
        "sbb_c"@.len() == 5 && key_code("sbb_c"@) == 0x50000063bf8b173,
        "sbb_d"@.len() == 5 && key_code("sbb_d"@) == 0x50000064bf8b173,
        "sbb_e"@.len() == 5 && key_code("sbb_e"@) == 0x50000065bf8b173,
        "sbb_h"@.len() == 5 && key_code("sbb_h"@) == 0x50000068bf8b173,
        "sbb_l"@.len() == 5 && key_code("sbb_l"@) == 0x5000006cbf8b173,
        "sbb_m"@.len() == 5 && key_code("sbb_m"@) == 0x5000006dbf8b173,
        "sbb_a"@.len() == 5 && key_code("sbb_a"@) == 0x50000061bf8b173,
        "ana_b"@.len() == 5 && key_code("ana_b"@) == 0x50000062bf87761,
        "ana_c"@.len() == 5 && key_code("ana_c"@) == 0x50000063bf87761,
        "ana_d"@.len() == 5 && key_code("ana_d"@) == 0x50000064bf87761,
        "ana_e"@.len() == 5 && key_code("ana_e"@) == 0x50000065bf87761,
        "ana_h"@.len() == 5 && key_code("ana_h"@) == 0x50000068bf87761,
        "ana_l"@.len() == 5 && key_code("ana_l"@) == 0x5000006cbf87761,
        "ana_m"@.len() == 5 && key_code("ana_m"@) == 0x5000006dbf87761,
        "ana_a"@.len() == 5 && key_code("ana_a"@) == 0x50000061bf87761,
        "xra_b"@.len() == 5 && key_code("xra_b"@) == 0x50000062bf87978,
        "xra_c"@.len() == 5 && key_code("xra_c"@) == 0x50000063bf87978,
        "xra_d"@.len() == 5 && key_code("xra_d"@) == 0x50000064bf87978,
        "xra_e"@.len() == 5 && key_code("xra_e"@) == 0x50000065bf87978,
        "xra_h"@.len() == 5 && key_code("xra_h"@) == 0x50000068bf87978,
        "xra_l"@.len() == 5 && key_code("xra_l"@) == 0x5000006cbf87978,
        "xra_m"@.len() == 5 && key_code("xra_m"@) == 0x5000006dbf87978,
        "xra_a"@.len() == 5 && key_code("xra_a"@) == 0x50000061bf87978,
        "ora_b"@.len() == 5 && key_code("ora_b"@) == 0x50000062bf8796f,
        "ora_c"@.len() == 5 && key_code("ora_c"@) == 0x50000063bf8796f,
        "ora_d"@.len() == 5 && key_code("ora_d"@) == 0x50000064bf8796f,
        "ora_e"@.len() == 5 && key_code("ora_e"@) == 0x50000065bf8796f,
        "ora_h"@.len() == 5 && key_code("ora_h"@) == 0x50000068bf8796f,
        "ora_l"@.len() == 5 && key_code("ora_l"@) == 0x5000006cbf8796f,
        "ora_m"@.len() == 5 && key_code("ora_m"@) == 0x5000006dbf8796f,
        "ora_a"@.len() == 5 && key_code("ora_a"@) == 0x50000061bf8796f,
        "cmp_b"@.len() == 5 && key_code("cmp_b"@) == 0x50000062bfc36e3,
        "cmp_c"@.len() == 5 && key_code("cmp_c"@) == 0x50000063bfc36e3,
        "cmp_d"@.len() == 5 && key_code("cmp_d"@) == 0x50000064bfc36e3,
        "cmp_e"@.len() == 5 && key_code("cmp_e"@) == 0x50000065bfc36e3,
        "cmp_h"@.len() == 5 && key_code("cmp_h"@) == 0x50000068bfc36e3,
        "cmp_l"@.len() == 5 && key_code("cmp_l"@) == 0x5000006cbfc36e3,
        "cmp_m"@.len() == 5 && key_code("cmp_m"@) == 0x5000006dbfc36e3,
        "cmp_a"@.len() == 5 && key_code("cmp_a"@) == 0x50000061bfc36e3,
        "pop_b"@.len() == 5 && key_code("pop_b"@) == 0x50000062bfc37f0,
        "rst_0"@.len() == 5 && key_code("rst_0"@) == 0x50000030bfd39f2,
        "rst_1"@.len() == 5 && key_code("rst_1"@) == 0x50000031bfd39f2,
        "pop_d"@.len() == 5 && key_code("pop_d"@) == 0x50000064bfc37f0,
        "rst_2"@.len() == 5 && key_code("rst_2"@) == 0x50000032bfd39f2,
        "rst_3"@.len() == 5 && key_code("rst_3"@) == 0x50000033bfd39f2,
        "pop_h"@.len() == 5 && key_code("pop_h"@) == 0x50000068bfc37f0,
        "rst_4"@.len() == 5 && key_code("rst_4"@) == 0x50000034bfd39f2,
        "rst_5"@.len() == 5 && key_code("rst_5"@) == 0x50000035bfd39f2,
        "rst_6"@.len() == 5 && key_code("rst_6"@) == 0x50000036bfd39f2,
        "rst_7"@.len() == 5 && key_code("rst_7"@) == 0x50000037bfd39f2,
{
    reveal_strlit("lxi_b");
    reveal_strlit("inx_b");
    reveal_strlit("inr_b");
    reveal_strlit("dcr_b");
    reveal_strlit("mvi_b");
    reveal_strlit("dad_b");
    reveal_strlit("dcx_b");
    reveal_strlit("inr_c");
    reveal_strlit("dcr_c");
    reveal_strlit("mvi_c");
    reveal_strlit("lxi_d");
    reveal_strlit("inx_d");
    reveal_strlit("inr_d");
    reveal_strlit("dcr_d");
    reveal_strlit("mvi_d");
    reveal_strlit("dad_d");
    reveal_strlit("dcx_d");
    reveal_strlit("inr_e");
    reveal_strlit("dcr_e");
    reveal_strlit("mvi_e");
    reveal_strlit("lxi_h");
    reveal_strlit("inx_h");
    reveal_strlit("inr_h");
    reveal_strlit("dcr_h");
    reveal_strlit("mvi_h");
    reveal_strlit("dad_h");
    reveal_strlit("dcx_h");
    reveal_strlit("inr_l");
    reveal_strlit("dcr_l");
    reveal_strlit("mvi_l");
    reveal_strlit("inr_m");
    reveal_strlit("dcr_m");
    reveal_strlit("mvi_m");
    reveal_strlit("inr_a");
    reveal_strlit("dcr_a");
    reveal_strlit("mvi_a");
    reveal_strlit("add_b");
    reveal_strlit("add_c");
    reveal_strlit("add_d");
    reveal_strlit("add_e");
    reveal_strlit("add_h");
    reveal_strlit("add_l");
    reveal_strlit("add_m");
    reveal_strlit("add_a");
    reveal_strlit("adc_b");
    reveal_strlit("adc_c");
    reveal_strlit("adc_d");
    reveal_strlit("adc_e");
    reveal_strlit("adc_h");
    reveal_strlit("adc_l");
    reveal_strlit("adc_m");
    reveal_strlit("adc_a");
    reveal_strlit("sub_b");
    reveal_strlit("sub_c");
    reveal_strlit("sub_d");
    reveal_strlit("sub_e");
    reveal_strlit("sub_h");
    reveal_strlit("sub_l");
    reveal_strlit("sub_m");
    reveal_strlit("sub_a");
    reveal_strlit("sbb_b");
    reveal_strlit("sbb_c");
    reveal_strlit("sbb_d");
    reveal_strlit("sbb_e");
    reveal_strlit("sbb_h");
    reveal_strlit("sbb_l");
    reveal_strlit("sbb_m");
    reveal_strlit("sbb_a");
    reveal_strlit("ana_b");
    reveal_strlit("ana_c");
    reveal_strlit("ana_d");
    reveal_strlit("ana_e");
    reveal_strlit("ana_h");
    reveal_strlit("ana_l");
    reveal_strlit("ana_m");
    reveal_strlit("ana_a");
    reveal_strlit("xra_b");
    reveal_strlit("xra_c");
    reveal_strlit("xra_d");
    reveal_strlit("xra_e");
    reveal_strlit("xra_h");
    reveal_strlit("xra_l");
    reveal_strlit("xra_m");
    reveal_strlit("xra_a");
    reveal_strlit("ora_b");
    reveal_strlit("ora_c");
    reveal_strlit("ora_d");
    reveal_strlit("ora_e");
    reveal_strlit("ora_h");
    reveal_strlit("ora_l");
    reveal_strlit("ora_m");
    reveal_strlit("ora_a");
    reveal_strlit("cmp_b");
    reveal_strlit("cmp_c");
    reveal_strlit("cmp_d");
    reveal_strlit("cmp_e");
    reveal_strlit("cmp_h");
    reveal_strlit("cmp_l");
    reveal_strlit("cmp_m");
    reveal_strlit("cmp_a");
    reveal_strlit("pop_b");
    reveal_strlit("rst_0");
    reveal_strlit("rst_1");
    reveal_strlit("pop_d");
    reveal_strlit("rst_2");
    reveal_strlit("rst_3");
    reveal_strlit("pop_h");
    reveal_strlit("rst_4");
    reveal_strlit("rst_5");
    reveal_strlit("rst_6");
    reveal_strlit("rst_7");
}

/// The length and fingerprint of every key in this group, pinned
/// once so that lookups in the group go by integer comparison.
#[verifier::rlimit(100)]
#[verifier::spinoff_prover]
proof fn lemma_codes_len6()
    ensures
        "stax_b"@.len() == 6 && key_code("stax_b"@) == 0x6000315ff187a73,
        "ldax_b"@.len() == 6 && key_code("ldax_b"@) == 0x6000315ff18726c,
        "stax_d"@.len() == 6 && key_code("stax_d"@) == 0x6000325ff187a73,
        "ldax_d"@.len() == 6 && key_code("ldax_d"@) == 0x6000325ff18726c,
        "lxi_sp"@.len() == 6 && key_code("lxi_sp"@) == 0x60003873bfa7c6c,
        "inx_sp"@.len() == 6 && key_code("inx_sp"@) == 0x60003873bfe3769,
        "dad_sp"@.len() == 6 && key_code("dad_sp"@) == 0x60003873bf930e4,
        "dcx_sp"@.len() == 6 && key_code("dcx_sp"@) == 0x60003873bfe31e4,
        "push_b"@.len() == 6 && key_code("push_b"@) == 0x6000315fd1cfaf0,
        "push_d"@.len() == 6 && key_code("push_d"@) == 0x6000325fd1cfaf0,
        "push_h"@.len() == 6 && key_code("push_h"@) == 0x6000345fd1cfaf0,
{
    reveal_strlit("stax_b");
    reveal_strlit("ldax_b");
    reveal_strlit("stax_d");
    reveal_strlit("ldax_d");
    reveal_strlit("lxi_sp");
    reveal_strlit("inx_sp");
    reveal_strlit("dad_sp");
    reveal_strlit("dcx_sp");
    reveal_strlit("push_b");
    reveal_strlit("push_d");
    reveal_strlit("push_h");
}

/// The length and fingerprint of every key in this group, pinned
/// once so that lookups in the group go by integer comparison.
#[verifier::rlimit(100)]
#[verifier::spinoff_prover]
proof fn lemma_codes_len7()
    ensures
        "mov_b_b"@.len() == 7 && key_code("mov_b_b"@) == 0x7018afe2bfdb7ed,
        "mov_b_c"@.len() == 7 && key_code("mov_b_c"@) == 0x7018efe2bfdb7ed,
        "mov_b_d"@.len() == 7 && key_code("mov_b_d"@) == 0x70192fe2bfdb7ed,
        "mov_b_e"@.len() == 7 && key_code("mov_b_e"@) == 0x70196fe2bfdb7ed,
        "mov_b_h"@.len() == 7 && key_code("mov_b_h"@) == 0x701a2fe2bfdb7ed,
        "mov_b_l"@.len() == 7 && key_code("mov_b_l"@) == 0x701b2fe2bfdb7ed,
        "mov_b_m"@.len() == 7 && key_code("mov_b_m"@) == 0x701b6fe2bfdb7ed,
        "mov_b_a"@.len() == 7 && key_code("mov_b_a"@) == 0x70186fe2bfdb7ed,
        "mov_c_b"@.len() == 7 && key_code("mov_c_b"@) == 0x7018afe3bfdb7ed,
        "mov_c_c"@.len() == 7 && key_code("mov_c_c"@) == 0x7018efe3bfdb7ed,
        "mov_c_d"@.len() == 7 && key_code("mov_c_d"@) == 0x70192fe3bfdb7ed,
        "mov_c_e"@.len() == 7 && key_code("mov_c_e"@) == 0x70196fe3bfdb7ed,
        "mov_c_h"@.len() == 7 && key_code("mov_c_h"@) == 0x701a2fe3bfdb7ed,
        "mov_c_l"@.len() == 7 && key_code("mov_c_l"@) == 0x701b2fe3bfdb7ed,
        "mov_c_m"@.len() == 7 && key_code("mov_c_m"@) == 0x701b6fe3bfdb7ed,
        "mov_c_a"@.len() == 7 && key_code("mov_c_a"@) == 0x70186fe3bfdb7ed,
        "mov_d_b"@.len() == 7 && key_code("mov_d_b"@) == 0x7018afe4bfdb7ed,
        "mov_d_c"@.len() == 7 && key_code("mov_d_c"@) == 0x7018efe4bfdb7ed,
        "mov_d_d"@.len() == 7 && key_code("mov_d_d"@) == 0x70192fe4bfdb7ed,
        "mov_d_e"@.len() == 7 && key_code("mov_d_e"@) == 0x70196fe4bfdb7ed,
        "mov_d_h"@.len() == 7 && key_code("mov_d_h"@) == 0x701a2fe4bfdb7ed,
        "mov_d_l"@.len() == 7 && key_code("mov_d_l"@) == 0x701b2fe4bfdb7ed,
        "mov_d_m"@.len() == 7 && key_code("mov_d_m"@) == 0x701b6fe4bfdb7ed,
        "mov_d_a"@.len() == 7 && key_code("mov_d_a"@) == 0x70186fe4bfdb7ed,
        "mov_e_b"@.len() == 7 && key_code("mov_e_b"@) == 0x7018afe5bfdb7ed,
        "mov_e_c"@.len() == 7 && key_code("mov_e_c"@) == 0x7018efe5bfdb7ed,
        "mov_e_d"@.len() == 7 && key_code("mov_e_d"@) == 0x70192fe5bfdb7ed,
        "mov_e_e"@.len() == 7 && key_code("mov_e_e"@) == 0x70196fe5bfdb7ed,
        "mov_e_h"@.len() == 7 && key_code("mov_e_h"@) == 0x701a2fe5bfdb7ed,
        "mov_e_l"@.len() == 7 && key_code("mov_e_l"@) == 0x701b2fe5bfdb7ed,
        "mov_e_m"@.len() == 7 && key_code("mov_e_m"@) == 0x701b6fe5bfdb7ed,
        "mov_e_a"@.len() == 7 && key_code("mov_e_a"@) == 0x70186fe5bfdb7ed,
        "mov_h_b"@.len() == 7 && key_code("mov_h_b"@) == 0x7018afe8bfdb7ed,
        "mov_h_c"@.len() == 7 && key_code("mov_h_c"@) == 0x7018efe8bfdb7ed,
        "mov_h_d"@.len() == 7 && key_code("mov_h_d"@) == 0x70192fe8bfdb7ed,
        "mov_h_e"@.len() == 7 && key_code("mov_h_e"@) == 0x70196fe8bfdb7ed,
        "mov_h_h"@.len() == 7 && key_code("mov_h_h"@) == 0x701a2fe8bfdb7ed,
        "mov_h_l"@.len() == 7 && key_code("mov_h_l"@) == 0x701b2fe8bfdb7ed,
        "mov_h_m"@.len() == 7 && key_code("mov_h_m"@) == 0x701b6fe8bfdb7ed,
        "mov_h_a"@.len() == 7 && key_code("mov_h_a"@) == 0x70186fe8bfdb7ed,
        "mov_l_b"@.len() == 7 && key_code("mov_l_b"@) == 0x7018afecbfdb7ed,
        "mov_l_c"@.len() == 7 && key_code("mov_l_c"@) == 0x7018efecbfdb7ed,
        "mov_l_d"@.len() == 7 && key_code("mov_l_d"@) == 0x70192fecbfdb7ed,
        "mov_l_e"@.len() == 7 && key_code("mov_l_e"@) == 0x70196fecbfdb7ed,
        "mov_l_h"@.len() == 7 && key_code("mov_l_h"@) == 0x701a2fecbfdb7ed,
        "mov_l_l"@.len() == 7 && key_code("mov_l_l"@) == 0x701b2fecbfdb7ed,
        "mov_l_m"@.len() == 7 && key_code("mov_l_m"@) == 0x701b6fecbfdb7ed,
        "mov_l_a"@.len() == 7 && key_code("mov_l_a"@) == 0x70186fecbfdb7ed,
        "mov_m_b"@.len() == 7 && key_code("mov_m_b"@) == 0x7018afedbfdb7ed,
        "mov_m_c"@.len() == 7 && key_code("mov_m_c"@) == 0x7018efedbfdb7ed,
        "mov_m_d"@.len() == 7 && key_code("mov_m_d"@) == 0x70192fedbfdb7ed,
        "mov_m_e"@.len() == 7 && key_code("mov_m_e"@) == 0x70196fedbfdb7ed,
        "mov_m_h"@.len() == 7 && key_code("mov_m_h"@) == 0x701a2fedbfdb7ed,
        "mov_m_l"@.len() == 7 && key_code("mov_m_l"@) == 0x701b2fedbfdb7ed,
        "mov_m_a"@.len() == 7 && key_code("mov_m_a"@) == 0x70186fedbfdb7ed,
        "mov_a_b"@.len() == 7 && key_code("mov_a_b"@) == 0x7018afe1bfdb7ed,
        "mov_a_c"@.len() == 7 && key_code("mov_a_c"@) == 0x7018efe1bfdb7ed,
        "mov_a_d"@.len() == 7 && key_code("mov_a_d"@) == 0x70192fe1bfdb7ed,
        "mov_a_e"@.len() == 7 && key_code("mov_a_e"@) == 0x70196fe1bfdb7ed,
        "mov_a_h"@.len() == 7 && key_code("mov_a_h"@) == 0x701a2fe1bfdb7ed,
        "mov_a_l"@.len() == 7 && key_code("mov_a_l"@) == 0x701b2fe1bfdb7ed,
        "mov_a_m"@.len() == 7 && key_code("mov_a_m"@) == 0x701b6fe1bfdb7ed,
        "mov_a_a"@.len() == 7 && key_code("mov_a_a"@) == 0x70186fe1bfdb7ed,
        "pop_psw"@.len() == 7 && key_code("pop_psw"@) == 0x701df9f0bfc37f0,
{
    reveal_strlit("mov_b_b");
    reveal_strlit("mov_b_c");
    reveal_strlit("mov_b_d");
    reveal_strlit("mov_b_e");
    reveal_strlit("mov_b_h");
    reveal_strlit("mov_b_l");
    reveal_strlit("mov_b_m");
    reveal_strlit("mov_b_a");
    reveal_strlit("mov_c_b");
    reveal_strlit("mov_c_c");
    reveal_strlit("mov_c_d");
    reveal_strlit("mov_c_e");
    reveal_strlit("mov_c_h");
    reveal_strlit("mov_c_l");
    reveal_strlit("mov_c_m");
    reveal_strlit("mov_c_a");
    reveal_strlit("mov_d_b");
    reveal_strlit("mov_d_c");
    reveal_strlit("mov_d_d");
    reveal_strlit("mov_d_e");
    reveal_strlit("mov_d_h");
    reveal_strlit("mov_d_l");
    reveal_strlit("mov_d_m");
    reveal_strlit("mov_d_a");
    reveal_strlit("mov_e_b");
    reveal_strlit("mov_e_c");
    reveal_strlit("mov_e_d");
    reveal_strlit("mov_e_e");
    reveal_strlit("mov_e_h");
    reveal_strlit("mov_e_l");
    reveal_strlit("mov_e_m");
    reveal_strlit("mov_e_a");
    reveal_strlit("mov_h_b");
    reveal_strlit("mov_h_c");
    reveal_strlit("mov_h_d");
    reveal_strlit("mov_h_e");
    reveal_strlit("mov_h_h");
    reveal_strlit("mov_h_l");
    reveal_strlit("mov_h_m");
    reveal_strlit("mov_h_a");
    reveal_strlit("mov_l_b");
    reveal_strlit("mov_l_c");
    reveal_strlit("mov_l_d");
    reveal_strlit("mov_l_e");
    reveal_strlit("mov_l_h");
    reveal_strlit("mov_l_l");
    reveal_strlit("mov_l_m");
    reveal_strlit("mov_l_a");
    reveal_strlit("mov_m_b");
    reveal_strlit("mov_m_c");
    reveal_strlit("mov_m_d");
    reveal_strlit("mov_m_e");
    reveal_strlit("mov_m_h");
    reveal_strlit("mov_m_l");
    reveal_strlit("mov_m_a");
    reveal_strlit("mov_a_b");
    reveal_strlit("mov_a_c");
    reveal_strlit("mov_a_d");
    reveal_strlit("mov_a_e");
    reveal_strlit("mov_a_h");
    reveal_strlit("mov_a_l");
    reveal_strlit("mov_a_m");
    reveal_strlit("mov_a_a");
    reveal_strlit("pop_psw");
}

/// The length and fingerprint of every key in this group, pinned
/// once so that lookups in the group go by integer comparison.
#[verifier::rlimit(100)]
#[verifier::spinoff_prover]
proof fn lemma_codes_len8()
    ensures
        "push_psw"@.len() == 8 && key_code("push_psw"@) == 0x8efcf85fd1cfaf0,
{
    reveal_strlit("push_psw");
}

/// Reading the table backwards recovers a key that assembles to
/// exactly this byte.
#[verifier::rlimit(100)]
#[verifier::spinoff_prover]
proof fn lemma_reach_len2(b: u8)
    requires
        b == 0xC8 || b == 0xCA || b == 0xCC || b == 0xD8 || b == 0xDA || b == 0xDB || b == 0xDC || b == 0xF0 || b == 0xF2 || b == 0xF3 || b == 0xF4 || b == 0xF8 || b == 0xFA || b == 0xFB || b == 0xFC,
    ensures
        spec_key_of(b) is Some,
        spec_opcode(spec_key_of(b)->Some_0) == Some(b),
{
    lemma_codes_len2();
    reveal(spec_key_of);
    reveal(spec_opcode);
    if b == 0xC8 {
        assert(spec_opcode_len2("rz"@) == Some(0xC8u8));
    } else if b == 0xCA {
        assert(spec_opcode_len2("jz"@) == Some(0xCAu8));
    } else if b == 0xCC {
        assert(spec_opcode_len2("cz"@) == Some(0xCCu8));
    } else if b == 0xD8 {
        assert(spec_opcode_len2("rc"@) == Some(0xD8u8));
    } else if b == 0xDA {
        assert(spec_opcode_len2("jc"@) == Some(0xDAu8));
    } else if b == 0xDB {
        assert(spec_opcode_len2("in"@) == Some(0xDBu8));
    } else if b == 0xDC {
        assert(spec_opcode_len2("cc"@) == Some(0xDCu8));
    } else if b == 0xF0 {
        assert(spec_opcode_len2("rp"@) == Some(0xF0u8));
    } else if b == 0xF2 {
        assert(spec_opcode_len2("jp"@) == Some(0xF2u8));
    } else if b == 0xF3 {
        assert(spec_opcode_len2("di"@) == Some(0xF3u8));
    } else if b == 0xF4 {
        assert(spec_opcode_len2("cp"@) == Some(0xF4u8));
    } else if b == 0xF8 {
        assert(spec_opcode_len2("rm"@) == Some(0xF8u8));
    } else if b == 0xFA {
        assert(spec_opcode_len2("jm"@) == Some(0xFAu8));
    } else if b == 0xFB {
        assert(spec_opcode_len2("ei"@) == Some(0xFBu8));
    } else if b == 0xFC {
        assert(spec_opcode_len2("cm"@) == Some(0xFCu8));
    }
}

/// Reading the table backwards recovers a key that assembles to
/// exactly this byte.
#[verifier::rlimit(100)]
#[verifier::spinoff_prover]
proof fn lemma_reach_len3(b: u8)
    requires
        b == 0x00 || b == 0x07 || b == 0x0F || b == 0x17 || b == 0x1F || b == 0x20 || b == 0x27 || b == 0x2F || b == 0x30 || b == 0x32 || b == 0x37 || b == 0x3A || b == 0x3F || b == 0x76 || b == 0xC0 || b == 0xC2 || b == 0xC3 || b == 0xC4 || b == 0xC6 || b == 0xC9 || b == 0xCE || b == 0xD0 || b == 0xD2 || b == 0xD3 || b == 0xD4 || b == 0xD6 || b == 0xDE || b == 0xE0 || b == 0xE2 || b == 0xE4 || b == 0xE6 || b == 0xE8 || b == 0xEA || b == 0xEC || b == 0xEE || b == 0xF6 || b == 0xFE,
    ensures
        spec_key_of(b) is Some,
        spec_opcode(spec_key_of(b)->Some_0) == Some(b),
{
    lemma_codes_len3();
    reveal(spec_key_of);
    reveal(spec_opcode);
    if b == 0x00 {
        assert(spec_opcode_len3("nop"@) == Some(0x00u8));
    } else if b == 0x07 {
        assert(spec_opcode_len3("rlc"@) == Some(0x07u8));
    } else if b == 0x0F {
        assert(spec_opcode_len3("rrc"@) == Some(0x0Fu8));
    } else if b == 0x17 {
        assert(spec_opcode_len3("ral"@) == Some(0x17u8));
    } else if b == 0x1F {
        assert(spec_opcode_len3("rar"@) == Some(0x1Fu8));
    } else if b == 0x20 {
        assert(spec_opcode_len3("rim"@) == Some(0x20u8));
    } else if b == 0x27 {
        assert(spec_opcode_len3("daa"@) == Some(0x27u8));
    } else if b == 0x2F {
        assert(spec_opcode_len3("cma"@) == Some(0x2Fu8));
    } else if b == 0x30 {
        assert(spec_opcode_len3("sim"@) == Some(0x30u8));
    } else if b == 0x32 {
        assert(spec_opcode_len3("sta"@) == Some(0x32u8));
    } else if b == 0x37 {
        assert(spec_opcode_len3("stc"@) == Some(0x37u8));
    } else if b == 0x3A {
        assert(spec_opcode_len3("lda"@) == Some(0x3Au8));
    } else if b == 0x3F {
        assert(spec_opcode_len3("cmc"@) == Some(0x3Fu8));
    } else if b == 0x76 {
        assert(spec_opcode_len3("hlt"@) == Some(0x76u8));
    } else if b == 0xC0 {
        assert(spec_opcode_len3("rnz"@) == Some(0xC0u8));
    } else if b == 0xC2 {
        assert(spec_opcode_len3("jnz"@) == Some(0xC2u8));
    } else if b == 0xC3 {
        assert(spec_opcode_len3("jmp"@) == Some(0xC3u8));
    } else if b == 0xC4 {
        assert(spec_opcode_len3("cnz"@) == Some(0xC4u8));
    } else if b == 0xC6 {
        assert(spec_opcode_len3("adi"@) == Some(0xC6u8));
    } else if b == 0xC9 {
        assert(spec_opcode_len3("ret"@) == Some(0xC9u8));
    } else if b == 0xCE {
        assert(spec_opcode_len3("aci"@) == Some(0xCEu8));
    } else if b == 0xD0 {
        assert(spec_opcode_len3("rnc"@) == Some(0xD0u8));
    } else if b == 0xD2 {
        assert(spec_opcode_len3("jnc"@) == Some(0xD2u8));
    } else if b == 0xD3 {
        assert(spec_opcode_len3("out"@) == Some(0xD3u8));
    } else if b == 0xD4 {
        assert(spec_opcode_len3("cnc"@) == Some(0xD4u8));
    } else if b == 0xD6 {
        assert(spec_opcode_len3("sui"@) == Some(0xD6u8));
    } else if b == 0xDE {
        assert(spec_opcode_len3("sbi"@) == Some(0xDEu8));
    } else if b == 0xE0 {
        assert(spec_opcode_len3("rpo"@) == Some(0xE0u8));
    } else if b == 0xE2 {
        assert(spec_opcode_len3("jpo"@) == Some(0xE2u8));
    } else if b == 0xE4 {
        assert(spec_opcode_len3("cpo"@) == Some(0xE4u8));
    } else if b == 0xE6 {
        assert(spec_opcode_len3("ani"@) == Some(0xE6u8));
    } else if b == 0xE8 {
        assert(spec_opcode_len3("rpe"@) == Some(0xE8u8));
    } else if b == 0xEA {
        assert(spec_opcode_len3("jpe"@) == Some(0xEAu8));
    } else if b == 0xEC {
        assert(spec_opcode_len3("cpe"@) == Some(0xECu8));
    } else if b == 0xEE {
        assert(spec_opcode_len3("xri"@) == Some(0xEEu8));
    } else if b == 0xF6 {
        assert(spec_opcode_len3("ori"@) == Some(0xF6u8));
    } else if b == 0xFE {
        assert(spec_opcode_len3("cpi"@) == Some(0xFEu8));
    }
}

/// Reading the table backwards recovers a key that assembles to
/// exactly this byte.
#[verifier::rlimit(100)]
#[verifier::spinoff_prover]
proof fn lemma_reach_len4(b: u8)
    requires
        b == 0x22 || b == 0x2A || b == 0xCD || b == 0xE3 || b == 0xE9 || b == 0xEB || b == 0xF9,
    ensures
        spec_key_of(b) is Some,
        spec_opcode(spec_key_of(b)->Some_0) == Some(b),
{
    lemma_codes_len4();
    reveal(spec_key_of);
    reveal(spec_opcode);
    if b == 0x22 {
        assert(spec_opcode_len4("shld"@) == Some(0x22u8));
    } else if b == 0x2A {
        assert(spec_opcode_len4("lhld"@) == Some(0x2Au8));
    } else if b == 0xCD {
        assert(spec_opcode_len4("call"@) == Some(0xCDu8));
    } else if b == 0xE3 {
        assert(spec_opcode_len4("xthl"@) == Some(0xE3u8));
    } else if b == 0xE9 {
        assert(spec_opcode_len4("pchl"@) == Some(0xE9u8));
    } else if b == 0xEB {
        assert(spec_opcode_len4("xchg"@) == Some(0xEBu8));
    } else if b == 0xF9 {
        assert(spec_opcode_len4("sphl"@) == Some(0xF9u8));
    }
}

/// Reading the table backwards recovers a key that assembles to
/// exactly this byte.
#[verifier::rlimit(100)]
#[verifier::spinoff_prover]
proof fn lemma_reach_len5(b: u8)
    requires
        b == 0x01 || b == 0x03 || b == 0x04 || b == 0x05 || b == 0x06 || b == 0x09 || b == 0x0B || b == 0x0C || b == 0x0D || b == 0x0E || b == 0x11 || b == 0x13 || b == 0x14 || b == 0x15 || b == 0x16 || b == 0x19 || b == 0x1B || b == 0x1C || b == 0x1D || b == 0x1E || b == 0x21 || b == 0x23 || b == 0x24 || b == 0x25 || b == 0x26 || b == 0x29 || b == 0x2B || b == 0x2C || b == 0x2D || b == 0x2E || b == 0x34 || b == 0x35 || b == 0x36 || b == 0x3C || b == 0x3D || b == 0x3E || b == 0x80 || b == 0x81 || b == 0x82 || b == 0x83 || b == 0x84 || b == 0x85 || b == 0x86 || b == 0x87 || b == 0x88 || b == 0x89 || b == 0x8A || b == 0x8B || b == 0x8C || b == 0x8D || b == 0x8E || b == 0x8F || b == 0x90 || b == 0x91 || b == 0x92 || b == 0x93 || b == 0x94 || b == 0x95 || b == 0x96 || b == 0x97 || b == 0x98 || b == 0x99 || b == 0x9A || b == 0x9B || b == 0x9C || b == 0x9D || b == 0x9E || b == 0x9F || b == 0xA0 || b == 0xA1 || b == 0xA2 || b == 0xA3 || b == 0xA4 || b == 0xA5 || b == 0xA6 || b == 0xA7 || b == 0xA8 || b == 0xA9 || b == 0xAA || b == 0xAB || b == 0xAC || b == 0xAD || b == 0xAE || b == 0xAF || b == 0xB0 || b == 0xB1 || b == 0xB2 || b == 0xB3 || b == 0xB4 || b == 0xB5 || b == 0xB6 || b == 0xB7 || b == 0xB8 || b == 0xB9 || b == 0xBA || b == 0xBB || b == 0xBC || b == 0xBD || b == 0xBE || b == 0xBF || b == 0xC1 || b == 0xC7 || b == 0xCF || b == 0xD1 || b == 0xD7 || b == 0xDF || b == 0xE1 || b == 0xE7 || b == 0xEF || b == 0xF7 || b == 0xFF,
    ensures
        spec_key_of(b) is Some,
        spec_opcode(spec_key_of(b)->Some_0) == Some(b),
{
    lemma_codes_len5();
    reveal(spec_key_of);
    reveal(spec_opcode);
    if b == 0x01 {
        assert(spec_opcode_len5("lxi_b"@) == Some(0x01u8));
    } else if b == 0x03 {
        assert(spec_opcode_len5("inx_b"@) == Some(0x03u8));
    } else if b == 0x04 {
        assert(spec_opcode_len5("inr_b"@) == Some(0x04u8));
    } else if b == 0x05 {
        assert(spec_opcode_len5("dcr_b"@) == Some(0x05u8));
    } else if b == 0x06 {
        assert(spec_opcode_len5("mvi_b"@) == Some(0x06u8));
    } else if b == 0x09 {
        assert(spec_opcode_len5("dad_b"@) == Some(0x09u8));
    } else if b == 0x0B {
        assert(spec_opcode_len5("dcx_b"@) == Some(0x0Bu8));
    } else if b == 0x0C {
        assert(spec_opcode_len5("inr_c"@) == Some(0x0Cu8));
    } else if b == 0x0D {
        assert(spec_opcode_len5("dcr_c"@) == Some(0x0Du8));
    } else if b == 0x0E {
        assert(spec_opcode_len5("mvi_c"@) == Some(0x0Eu8));
    } else if b == 0x11 {
        assert(spec_opcode_len5("lxi_d"@) == Some(0x11u8));
    } else if b == 0x13 {
        assert(spec_opcode_len5("inx_d"@) == Some(0x13u8));
    } else if b == 0x14 {
        assert(spec_opcode_len5("inr_d"@) == Some(0x14u8));
    } else if b == 0x15 {
        assert(spec_opcode_len5("dcr_d"@) == Some(0x15u8));
    } else if b == 0x16 {
        assert(spec_opcode_len5("mvi_d"@) == Some(0x16u8));
    } else if b == 0x19 {
        assert(spec_opcode_len5("dad_d"@) == Some(0x19u8));
    } else if b == 0x1B {
        assert(spec_opcode_len5("dcx_d"@) == Some(0x1Bu8));
    } else if b == 0x1C {
        assert(spec_opcode_len5("inr_e"@) == Some(0x1Cu8));
    } else if b == 0x1D {
        assert(spec_opcode_len5("dcr_e"@) == Some(0x1Du8));
    } else if b == 0x1E {
        assert(spec_opcode_len5("mvi_e"@) == Some(0x1Eu8));
    } else if b == 0x21 {
        assert(spec_opcode_len5("lxi_h"@) == Some(0x21u8));
    } else if b == 0x23 {
        assert(spec_opcode_len5("inx_h"@) == Some(0x23u8));
    } else if b == 0x24 {
        assert(spec_opcode_len5("inr_h"@) == Some(0x24u8));
    } else if b == 0x25 {
        assert(spec_opcode_len5("dcr_h"@) == Some(0x25u8));
    } else if b == 0x26 {
        assert(spec_opcode_len5("mvi_h"@) == Some(0x26u8));
    } else if b == 0x29 {
        assert(spec_opcode_len5("dad_h"@) == Some(0x29u8));
    } else if b == 0x2B {
        assert(spec_opcode_len5("dcx_h"@) == Some(0x2Bu8));
    } else if b == 0x2C {
        assert(spec_opcode_len5("inr_l"@) == Some(0x2Cu8));
    } else if b == 0x2D {
        assert(spec_opcode_len5("dcr_l"@) == Some(0x2Du8));
    } else if b == 0x2E {
        assert(spec_opcode_len5("mvi_l"@) == Some(0x2Eu8));
    } else if b == 0x34 {
        assert(spec_opcode_len5("inr_m"@) == Some(0x34u8));
    } else if b == 0x35 {
        assert(spec_opcode_len5("dcr_m"@) == Some(0x35u8));
    } else if b == 0x36 {
        assert(spec_opcode_len5("mvi_m"@) == Some(0x36u8));
    } else if b == 0x3C {
        assert(spec_opcode_len5("inr_a"@) == Some(0x3Cu8));
    } else if b == 0x3D {
        assert(spec_opcode_len5("dcr_a"@) == Some(0x3Du8));
    } else if b == 0x3E {
        assert(spec_opcode_len5("mvi_a"@) == Some(0x3Eu8));
    } else if b == 0x80 {
        assert(spec_opcode_len5("add_b"@) == Some(0x80u8));
    } else if b == 0x81 {
        assert(spec_opcode_len5("add_c"@) == Some(0x81u8));
    } else if b == 0x82 {
        assert(spec_opcode_len5("add_d"@) == Some(0x82u8));
    } else if b == 0x83 {
        assert(spec_opcode_len5("add_e"@) == Some(0x83u8));
    } else if b == 0x84 {
        assert(spec_opcode_len5("add_h"@) == Some(0x84u8));
    } else if b == 0x85 {
        assert(spec_opcode_len5("add_l"@) == Some(0x85u8));
    } else if b == 0x86 {
        assert(spec_opcode_len5("add_m"@) == Some(0x86u8));
    } else if b == 0x87 {
        assert(spec_opcode_len5("add_a"@) == Some(0x87u8));
    } else if b == 0x88 {
        assert(spec_opcode_len5("adc_b"@) == Some(0x88u8));
    } else if b == 0x89 {
        assert(spec_opcode_len5("adc_c"@) == Some(0x89u8));
    } else if b == 0x8A {
        assert(spec_opcode_len5("adc_d"@) == Some(0x8Au8));
    } else if b == 0x8B {
        assert(spec_opcode_len5("adc_e"@) == Some(0x8Bu8));
    } else if b == 0x8C {
        assert(spec_opcode_len5("adc_h"@) == Some(0x8Cu8));
    } else if b == 0x8D {
        assert(spec_opcode_len5("adc_l"@) == Some(0x8Du8));
    } else if b == 0x8E {
        assert(spec_opcode_len5("adc_m"@) == Some(0x8Eu8));
    } else if b == 0x8F {
        assert(spec_opcode_len5("adc_a"@) == Some(0x8Fu8));
    } else if b == 0x90 {
        assert(spec_opcode_len5("sub_b"@) == Some(0x90u8));
    } else if b == 0x91 {
        assert(spec_opcode_len5("sub_c"@) == Some(0x91u8));
    } else if b == 0x92 {
        assert(spec_opcode_len5("sub_d"@) == Some(0x92u8));
    } else if b == 0x93 {
        assert(spec_opcode_len5("sub_e"@) == Some(0x93u8));
    } else if b == 0x94 {
        assert(spec_opcode_len5("sub_h"@) == Some(0x94u8));
    } else if b == 0x95 {
        assert(spec_opcode_len5("sub_l"@) == Some(0x95u8));
    } else if b == 0x96 {
        assert(spec_opcode_len5("sub_m"@) == Some(0x96u8));
    } else if b == 0x97 {
        assert(spec_opcode_len5("sub_a"@) == Some(0x97u8));
    } else if b == 0x98 {
        assert(spec_opcode_len5("sbb_b"@) == Some(0x98u8));
    } else if b == 0x99 {
        assert(spec_opcode_len5("sbb_c"@) == Some(0x99u8));
    } else if b == 0x9A {
        assert(spec_opcode_len5("sbb_d"@) == Some(0x9Au8));
    } else if b == 0x9B {
        assert(spec_opcode_len5("sbb_e"@) == Some(0x9Bu8));
    } else if b == 0x9C {
        assert(spec_opcode_len5("sbb_h"@) == Some(0x9Cu8));
    } else if b == 0x9D {
        assert(spec_opcode_len5("sbb_l"@) == Some(0x9Du8));
    } else if b == 0x9E {
        assert(spec_opcode_len5("sbb_m"@) == Some(0x9Eu8));
    } else if b == 0x9F {
        assert(spec_opcode_len5("sbb_a"@) == Some(0x9Fu8));
    } else if b == 0xA0 {
        assert(spec_opcode_len5("ana_b"@) == Some(0xA0u8));
    } else if b == 0xA1 {
        assert(spec_opcode_len5("ana_c"@) == Some(0xA1u8));
    } else if b == 0xA2 {
        assert(spec_opcode_len5("ana_d"@) == Some(0xA2u8));
    } else if b == 0xA3 {
        assert(spec_opcode_len5("ana_e"@) == Some(0xA3u8));
    } else if b == 0xA4 {
        assert(spec_opcode_len5("ana_h"@) == Some(0xA4u8));
    } else if b == 0xA5 {
        assert(spec_opcode_len5("ana_l"@) == Some(0xA5u8));
    } else if b == 0xA6 {
        assert(spec_opcode_len5("ana_m"@) == Some(0xA6u8));
    } else if b == 0xA7 {
        assert(spec_opcode_len5("ana_a"@) == Some(0xA7u8));
    } else if b == 0xA8 {
        assert(spec_opcode_len5("xra_b"@) == Some(0xA8u8));
    } else if b == 0xA9 {
        assert(spec_opcode_len5("xra_c"@) == Some(0xA9u8));
    } else if b == 0xAA {
        assert(spec_opcode_len5("xra_d"@) == Some(0xAAu8));
    } else if b == 0xAB {
        assert(spec_opcode_len5("xra_e"@) == Some(0xABu8));
    } else if b == 0xAC {
        assert(spec_opcode_len5("xra_h"@) == Some(0xACu8));
    } else if b == 0xAD {
        assert(spec_opcode_len5("xra_l"@) == Some(0xADu8));
    } else if b == 0xAE {
        assert(spec_opcode_len5("xra_m"@) == Some(0xAEu8));
    } else if b == 0xAF {
        assert(spec_opcode_len5("xra_a"@) == Some(0xAFu8));
    } else if b == 0xB0 {
        assert(spec_opcode_len5("ora_b"@) == Some(0xB0u8));
    } else if b == 0xB1 {
        assert(spec_opcode_len5("ora_c"@) == Some(0xB1u8));
    } else if b == 0xB2 {
        assert(spec_opcode_len5("ora_d"@) == Some(0xB2u8));
    } else if b == 0xB3 {
        assert(spec_opcode_len5("ora_e"@) == Some(0xB3u8));
    } else if b == 0xB4 {
        assert(spec_opcode_len5("ora_h"@) == Some(0xB4u8));
    } else if b == 0xB5 {
        assert(spec_opcode_len5("ora_l"@) == Some(0xB5u8));
    } else if b == 0xB6 {
        assert(spec_opcode_len5("ora_m"@) == Some(0xB6u8));
    } else if b == 0xB7 {
        assert(spec_opcode_len5("ora_a"@) == Some(0xB7u8));
    } else if b == 0xB8 {
        assert(spec_opcode_len5("cmp_b"@) == Some(0xB8u8));
    } else if b == 0xB9 {
        assert(spec_opcode_len5("cmp_c"@) == Some(0xB9u8));
    } else if b == 0xBA {
        assert(spec_opcode_len5("cmp_d"@) == Some(0xBAu8));
    } else if b == 0xBB {
        assert(spec_opcode_len5("cmp_e"@) == Some(0xBBu8));
    } else if b == 0xBC {
        assert(spec_opcode_len5("cmp_h"@) == Some(0xBCu8));
    } else if b == 0xBD {
        assert(spec_opcode_len5("cmp_l"@) == Some(0xBDu8));
    } else if b == 0xBE {
        assert(spec_opcode_len5("cmp_m"@) == Some(0xBEu8));
    } else if b == 0xBF {
        assert(spec_opcode_len5("cmp_a"@) == Some(0xBFu8));
    } else if b == 0xC1 {
        assert(spec_opcode_len5("pop_b"@) == Some(0xC1u8));
    } else if b == 0xC7 {
        assert(spec_opcode_len5("rst_0"@) == Some(0xC7u8));
    } else if b == 0xCF {
        assert(spec_opcode_len5("rst_1"@) == Some(0xCFu8));
    } else if b == 0xD1 {
        assert(spec_opcode_len5("pop_d"@) == Some(0xD1u8));
    } else if b == 0xD7 {
        assert(spec_opcode_len5("rst_2"@) == Some(0xD7u8));
    } else if b == 0xDF {
        assert(spec_opcode_len5("rst_3"@) == Some(0xDFu8));
    } else if b == 0xE1 {
        assert(spec_opcode_len5("pop_h"@) == Some(0xE1u8));
    } else if b == 0xE7 {
        assert(spec_opcode_len5("rst_4"@) == Some(0xE7u8));
    } else if b == 0xEF {
        assert(spec_opcode_len5("rst_5"@) == Some(0xEFu8));
    } else if b == 0xF7 {
        assert(spec_opcode_len5("rst_6"@) == Some(0xF7u8));
    } else if b == 0xFF {
        assert(spec_opcode_len5("rst_7"@) == Some(0xFFu8));
    }
}

/// Reading the table backwards recovers a key that assembles to
/// exactly this byte.
#[verifier::rlimit(100)]
#[verifier::spinoff_prover]
proof fn lemma_reach_len6(b: u8)
    requires
        b == 0x02 || b == 0x0A || b == 0x12 || b == 0x1A || b == 0x31 || b == 0x33 || b == 0x39 || b == 0x3B || b == 0xC5 || b == 0xD5 || b == 0xE5,
    ensures
        spec_key_of(b) is Some,
        spec_opcode(spec_key_of(b)->Some_0) == Some(b),
{
    lemma_codes_len6();
    reveal(spec_key_of);
    reveal(spec_opcode);
    if b == 0x02 {
        assert(spec_opcode_len6("stax_b"@) == Some(0x02u8));
    } else if b == 0x0A {
        assert(spec_opcode_len6("ldax_b"@) == Some(0x0Au8));
    } else if b == 0x12 {
        assert(spec_opcode_len6("stax_d"@) == Some(0x12u8));
    } else if b == 0x1A {
        assert(spec_opcode_len6("ldax_d"@) == Some(0x1Au8));
    } else if b == 0x31 {
        assert(spec_opcode_len6("lxi_sp"@) == Some(0x31u8));
    } else if b == 0x33 {
        assert(spec_opcode_len6("inx_sp"@) == Some(0x33u8));
    } else if b == 0x39 {
        assert(spec_opcode_len6("dad_sp"@) == Some(0x39u8));
    } else if b == 0x3B {
        assert(spec_opcode_len6("dcx_sp"@) == Some(0x3Bu8));
    } else if b == 0xC5 {
        assert(spec_opcode_len6("push_b"@) == Some(0xC5u8));
    } else if b == 0xD5 {
        assert(spec_opcode_len6("push_d"@) == Some(0xD5u8));
    } else if b == 0xE5 {
        assert(spec_opcode_len6("push_h"@) == Some(0xE5u8));
    }
}

/// Reading the table backwards recovers a key that assembles to
/// exactly this byte.
#[verifier::rlimit(100)]
#[verifier::spinoff_prover]
proof fn lemma_reach_len7(b: u8)
    requires
        b == 0x40 || b == 0x41 || b == 0x42 || b == 0x43 || b == 0x44 || b == 0x45 || b == 0x46 || b == 0x47 || b == 0x48 || b == 0x49 || b == 0x4A || b == 0x4B || b == 0x4C || b == 0x4D || b == 0x4E || b == 0x4F || b == 0x50 || b == 0x51 || b == 0x52 || b == 0x53 || b == 0x54 || b == 0x55 || b == 0x56 || b == 0x57 || b == 0x58 || b == 0x59 || b == 0x5A || b == 0x5B || b == 0x5C || b == 0x5D || b == 0x5E || b == 0x5F || b == 0x60 || b == 0x61 || b == 0x62 || b == 0x63 || b == 0x64 || b == 0x65 || b == 0x66 || b == 0x67 || b == 0x68 || b == 0x69 || b == 0x6A || b == 0x6B || b == 0x6C || b == 0x6D || b == 0x6E || b == 0x6F || b == 0x70 || b == 0x71 || b == 0x72 || b == 0x73 || b == 0x74 || b == 0x75 || b == 0x77 || b == 0x78 || b == 0x79 || b == 0x7A || b == 0x7B || b == 0x7C || b == 0x7D || b == 0x7E || b == 0x7F || b == 0xF1,
    ensures
        spec_key_of(b) is Some,
        spec_opcode(spec_key_of(b)->Some_0) == Some(b),
{
    lemma_codes_len7();
    reveal(spec_key_of);
    reveal(spec_opcode);
    if b == 0x40 {
        assert(spec_opcode_len7("mov_b_b"@) == Some(0x40u8));
    } else if b == 0x41 {
        assert(spec_opcode_len7("mov_b_c"@) == Some(0x41u8));
    } else if b == 0x42 {
        assert(spec_opcode_len7("mov_b_d"@) == Some(0x42u8));
    } else if b == 0x43 {
        assert(spec_opcode_len7("mov_b_e"@) == Some(0x43u8));
    } else if b == 0x44 {
        assert(spec_opcode_len7("mov_b_h"@) == Some(0x44u8));
    } else if b == 0x45 {
        assert(spec_opcode_len7("mov_b_l"@) == Some(0x45u8));
    } else if b == 0x46 {
        assert(spec_opcode_len7("mov_b_m"@) == Some(0x46u8));
    } else if b == 0x47 {
        assert(spec_opcode_len7("mov_b_a"@) == Some(0x47u8));
    } else if b == 0x48 {
        assert(spec_opcode_len7("mov_c_b"@) == Some(0x48u8));
    } else if b == 0x49 {
        assert(spec_opcode_len7("mov_c_c"@) == Some(0x49u8));
    } else if b == 0x4A {
        assert(spec_opcode_len7("mov_c_d"@) == Some(0x4Au8));
    } else if b == 0x4B {
        assert(spec_opcode_len7("mov_c_e"@) == Some(0x4Bu8));
    } else if b == 0x4C {
        assert(spec_opcode_len7("mov_c_h"@) == Some(0x4Cu8));
    } else if b == 0x4D {
        assert(spec_opcode_len7("mov_c_l"@) == Some(0x4Du8));
    } else if b == 0x4E {
        assert(spec_opcode_len7("mov_c_m"@) == Some(0x4Eu8));
    } else if b == 0x4F {
        assert(spec_opcode_len7("mov_c_a"@) == Some(0x4Fu8));
    } else if b == 0x50 {
        assert(spec_opcode_len7("mov_d_b"@) == Some(0x50u8));
    } else if b == 0x51 {
        assert(spec_opcode_len7("mov_d_c"@) == Some(0x51u8));
    } else if b == 0x52 {
        assert(spec_opcode_len7("mov_d_d"@) == Some(0x52u8));
    } else if b == 0x53 {
        assert(spec_opcode_len7("mov_d_e"@) == Some(0x53u8));
    } else if b == 0x54 {
        assert(spec_opcode_len7("mov_d_h"@) == Some(0x54u8));
    } else if b == 0x55 {
        assert(spec_opcode_len7("mov_d_l"@) == Some(0x55u8));
    } else if b == 0x56 {
        assert(spec_opcode_len7("mov_d_m"@) == Some(0x56u8));
    } else if b == 0x57 {
        assert(spec_opcode_len7("mov_d_a"@) == Some(0x57u8));
    } else if b == 0x58 {
        assert(spec_opcode_len7("mov_e_b"@) == Some(0x58u8));
    } else if b == 0x59 {
        assert(spec_opcode_len7("mov_e_c"@) == Some(0x59u8));
    } else if b == 0x5A {
        assert(spec_opcode_len7("mov_e_d"@) == Some(0x5Au8));
    } else if b == 0x5B {
        assert(spec_opcode_len7("mov_e_e"@) == Some(0x5Bu8));
    } else if b == 0x5C {
        assert(spec_opcode_len7("mov_e_h"@) == Some(0x5Cu8));
    } else if b == 0x5D {
        assert(spec_opcode_len7("mov_e_l"@) == Some(0x5Du8));
    } else if b == 0x5E {
        assert(spec_opcode_len7("mov_e_m"@) == Some(0x5Eu8));
    } else if b == 0x5F {
        assert(spec_opcode_len7("mov_e_a"@) == Some(0x5Fu8));
    } else if b == 0x60 {
        assert(spec_opcode_len7("mov_h_b"@) == Some(0x60u8));
    } else if b == 0x61 {
        assert(spec_opcode_len7("mov_h_c"@) == Some(0x61u8));
    } else if b == 0x62 {
        assert(spec_opcode_len7("mov_h_d"@) == Some(0x62u8));
    } else if b == 0x63 {
        assert(spec_opcode_len7("mov_h_e"@) == Some(0x63u8));
    } else if b == 0x64 {
        assert(spec_opcode_len7("mov_h_h"@) == Some(0x64u8));
    } else if b == 0x65 {
        assert(spec_opcode_len7("mov_h_l"@) == Some(0x65u8));
    } else if b == 0x66 {
        assert(spec_opcode_len7("mov_h_m"@) == Some(0x66u8));
    } else if b == 0x67 {
        assert(spec_opcode_len7("mov_h_a"@) == Some(0x67u8));
    } else if b == 0x68 {
        assert(spec_opcode_len7("mov_l_b"@) == Some(0x68u8));
    } else if b == 0x69 {
        assert(spec_opcode_len7("mov_l_c"@) == Some(0x69u8));
    } else if b == 0x6A {
        assert(spec_opcode_len7("mov_l_d"@) == Some(0x6Au8));
    } else if b == 0x6B {
        assert(spec_opcode_len7("mov_l_e"@) == Some(0x6Bu8));
    } else if b == 0x6C {
        assert(spec_opcode_len7("mov_l_h"@) == Some(0x6Cu8));
    } else if b == 0x6D {
        assert(spec_opcode_len7("mov_l_l"@) == Some(0x6Du8));
    } else if b == 0x6E {
        assert(spec_opcode_len7("mov_l_m"@) == Some(0x6Eu8));
    } else if b == 0x6F {
        assert(spec_opcode_len7("mov_l_a"@) == Some(0x6Fu8));
    } else if b == 0x70 {
        assert(spec_opcode_len7("mov_m_b"@) == Some(0x70u8));
    } else if b == 0x71 {
        assert(spec_opcode_len7("mov_m_c"@) == Some(0x71u8));
    } else if b == 0x72 {
        assert(spec_opcode_len7("mov_m_d"@) == Some(0x72u8));
    } else if b == 0x73 {
        assert(spec_opcode_len7("mov_m_e"@) == Some(0x73u8));
    } else if b == 0x74 {
        assert(spec_opcode_len7("mov_m_h"@) == Some(0x74u8));
    } else if b == 0x75 {
        assert(spec_opcode_len7("mov_m_l"@) == Some(0x75u8));
    } else if b == 0x77 {
        assert(spec_opcode_len7("mov_m_a"@) == Some(0x77u8));
    } else if b == 0x78 {
        assert(spec_opcode_len7("mov_a_b"@) == Some(0x78u8));
    } else if b == 0x79 {
        assert(spec_opcode_len7("mov_a_c"@) == Some(0x79u8));
    } else if b == 0x7A {
        assert(spec_opcode_len7("mov_a_d"@) == Some(0x7Au8));
    } else if b == 0x7B {
        assert(spec_opcode_len7("mov_a_e"@) == Some(0x7Bu8));
    } else if b == 0x7C {
        assert(spec_opcode_len7("mov_a_h"@) == Some(0x7Cu8));
    } else if b == 0x7D {
        assert(spec_opcode_len7("mov_a_l"@) == Some(0x7Du8));
    } else if b == 0x7E {
        assert(spec_opcode_len7("mov_a_m"@) == Some(0x7Eu8));
    } else if b == 0x7F {
        assert(spec_opcode_len7("mov_a_a"@) == Some(0x7Fu8));
    } else if b == 0xF1 {
        assert(spec_opcode_len7("pop_psw"@) == Some(0xF1u8));
    }
}

/// Reading the table backwards recovers a key that assembles to
/// exactly this byte.
#[verifier::rlimit(100)]
#[verifier::spinoff_prover]
proof fn lemma_reach_len8(b: u8)
    requires
        b == 0xF5,
    ensures
        spec_key_of(b) is Some,
        spec_opcode(spec_key_of(b)->Some_0) == Some(b),
{
    lemma_codes_len8();
    reveal(spec_key_of);
    reveal(spec_opcode);
    if b == 0xF5 {
        assert(spec_opcode_len8("push_psw"@) == Some(0xF5u8));
    }
}

/// The unconditional jump's table entry, pinned for the label
/// resolution law.
pub proof fn lemma_opcode_of_jmp()
    ensures
        spec_opcode("jmp"@) == Some(0xc3u8),
{
    reveal(spec_opcode);
    lemma_codes_len3();
}

/// Every opcode byte outside the ten undefined ones is reachable:
/// the table holds a key that assembles to exactly that byte.
#[verifier::rlimit(100)]
#[verifier::spinoff_prover]
pub proof fn lemma_opcode_reachable(b: u8)
    requires
        !crate::model::undefined_opcode(b),
    ensures
        spec_key_of(b) is Some,
        spec_opcode(spec_key_of(b)->Some_0) == Some(b),
{

    if b == 0x00 {
        lemma_reach_len3(b);
    } else if b == 0x01 {
        lemma_reach_len5(b);
    } else if b == 0x02 {
        lemma_reach_len6(b);
    } else if b == 0x03 {
        lemma_reach_len5(b);
    } else if b == 0x04 {
        lemma_reach_len5(b);
    } else if b == 0x05 {
        lemma_reach_len5(b);
    } else if b == 0x06 {
        lemma_reach_len5(b);
    } else if b == 0x07 {
        lemma_reach_len3(b);
    } else if b == 0x09 {
        lemma_reach_len5(b);
    } else if b == 0x0A {
        lemma_reach_len6(b);
    } else if b == 0x0B {
        lemma_reach_len5(b);
    } else if b == 0x0C {
        lemma_reach_len5(b);
    } else if b == 0x0D {
        lemma_reach_len5(b);
    } else if b == 0x0E {
        lemma_reach_len5(b);
    } else if b == 0x0F {
        lemma_reach_len3(b);
    } else if b == 0x11 {
        lemma_reach_len5(b);
    } else if b == 0x12 {
        lemma_reach_len6(b);
    } else if b == 0x13 {
        lemma_reach_len5(b);
    } else if b == 0x14 {
        lemma_reach_len5(b);
    } else if b == 0x15 {
        lemma_reach_len5(b);
    } else if b == 0x16 {
        lemma_reach_len5(b);
    } else if b == 0x17 {
        lemma_reach_len3(b);
    } else if b == 0x19 {
        lemma_reach_len5(b);
    } else if b == 0x1A {
        lemma_reach_len6(b);
    } else if b == 0x1B {
        lemma_reach_len5(b);
    } else if b == 0x1C {
        lemma_reach_len5(b);
    } else if b == 0x1D {
        lemma_reach_len5(b);
    } else if b == 0x1E {
        lemma_reach_len5(b);
    } else if b == 0x1F {
        lemma_reach_len3(b);
    } else if b == 0x20 {
        lemma_reach_len3(b);
    } else if b == 0x21 {
        lemma_reach_len5(b);
    } else if b == 0x22 {
        lemma_reach_len4(b);
    } else if b == 0x23 {
        lemma_reach_len5(b);
    } else if b == 0x24 {
        lemma_reach_len5(b);
    } else if b == 0x25 {
        lemma_reach_len5(b);
    } else if b == 0x26 {
        lemma_reach_len5(b);
    } else if b == 0x27 {
        lemma_reach_len3(b);
    } else if b == 0x29 {
        lemma_reach_len5(b);
    } else if b == 0x2A {
        lemma_reach_len4(b);
    } else if b == 0x2B {
        lemma_reach_len5(b);
    } else if b == 0x2C {
        lemma_reach_len5(b);
    } else if b == 0x2D {
        lemma_reach_len5(b);
    } else if b == 0x2E {
        lemma_reach_len5(b);
    } else if b == 0x2F {
        lemma_reach_len3(b);
    } else if b == 0x30 {
        lemma_reach_len3(b);
    } else if b == 0x31 {
        lemma_reach_len6(b);
    } else if b == 0x32 {
        lemma_reach_len3(b);
    } else if b == 0x33 {
        lemma_reach_len6(b);
    } else if b == 0x34 {
        lemma_reach_len5(b);
    } else if b == 0x35 {
        lemma_reach_len5(b);
    } else if b == 0x36 {
        lemma_reach_len5(b);
    } else if b == 0x37 {
        lemma_reach_len3(b);
    } else if b == 0x39 {
        lemma_reach_len6(b);
    } else if b == 0x3A {
        lemma_reach_len3(b);
    } else if b == 0x3B {
        lemma_reach_len6(b);
    } else if b == 0x3C {
        lemma_reach_len5(b);
    } else if b == 0x3D {
        lemma_reach_len5(b);
    } else if b == 0x3E {
        lemma_reach_len5(b);
    } else if b == 0x3F {
        lemma_reach_len3(b);
    } else if b == 0x40 {
        lemma_reach_len7(b);
    } else if b == 0x41 {
        lemma_reach_len7(b);
    } else if b == 0x42 {
        lemma_reach_len7(b);
    } else if b == 0x43 {
        lemma_reach_len7(b);
    } else if b == 0x44 {
        lemma_reach_len7(b);
    } else if b == 0x45 {
        lemma_reach_len7(b);
    } else if b == 0x46 {
        lemma_reach_len7(b);
    } else if b == 0x47 {
        lemma_reach_len7(b);
    } else if b == 0x48 {
        lemma_reach_len7(b);
    } else if b == 0x49 {
        lemma_reach_len7(b);
    } else if b == 0x4A {
        lemma_reach_len7(b);
    } else if b == 0x4B {
        lemma_reach_len7(b);
    } else if b == 0x4C {
        lemma_reach_len7(b);
    } else if b == 0x4D {
        lemma_reach_len7(b);
    } else if b == 0x4E {
        lemma_reach_len7(b);
    } else if b == 0x4F {
        lemma_reach_len7(b);
    } else if b == 0x50 {
        lemma_reach_len7(b);
    } else if b == 0x51 {
        lemma_reach_len7(b);
    } else if b == 0x52 {
        lemma_reach_len7(b);
    } else if b == 0x53 {
        lemma_reach_len7(b);
    } else if b == 0x54 {
        lemma_reach_len7(b);
    } else if b == 0x55 {
        lemma_reach_len7(b);
    } else if b == 0x56 {
        lemma_reach_len7(b);
    } else if b == 0x57 {
        lemma_reach_len7(b);
    } else if b == 0x58 {
        lemma_reach_len7(b);
    } else if b == 0x59 {
        lemma_reach_len7(b);
    } else if b == 0x5A {
        lemma_reach_len7(b);
    } else if b == 0x5B {
        lemma_reach_len7(b);
    } else if b == 0x5C {
        lemma_reach_len7(b);
    } else if b == 0x5D {
        lemma_reach_len7(b);
    } else if b == 0x5E {
        lemma_reach_len7(b);
    } else if b == 0x5F {
        lemma_reach_len7(b);
    } else if b == 0x60 {
        lemma_reach_len7(b);
    } else if b == 0x61 {
        lemma_reach_len7(b);
    } else if b == 0x62 {
        lemma_reach_len7(b);
    } else if b == 0x63 {
        lemma_reach_len7(b);
    } else if b == 0x64 {
        lemma_reach_len7(b);
    } else if b == 0x65 {
        lemma_reach_len7(b);
    } else if b == 0x66 {
        lemma_reach_len7(b);
    } else if b == 0x67 {
        lemma_reach_len7(b);
    } else if b == 0x68 {
        lemma_reach_len7(b);
    } else if b == 0x69 {
        lemma_reach_len7(b);
    } else if b == 0x6A {
        lemma_reach_len7(b);
    } else if b == 0x6B {
        lemma_reach_len7(b);
    } else if b == 0x6C {
        lemma_reach_len7(b);
    } else if b == 0x6D {
        lemma_reach_len7(b);
    } else if b == 0x6E {
        lemma_reach_len7(b);
    } else if b == 0x6F {
        lemma_reach_len7(b);
    } else if b == 0x70 {
        lemma_reach_len7(b);
    } else if b == 0x71 {
        lemma_reach_len7(b);
    } else if b == 0x72 {
        lemma_reach_len7(b);
    } else if b == 0x73 {
        lemma_reach_len7(b);
    } else if b == 0x74 {
        lemma_reach_len7(b);
    } else if b == 0x75 {
        lemma_reach_len7(b);
    } else if b == 0x76 {
        lemma_reach_len3(b);
    } else if b == 0x77 {
        lemma_reach_len7(b);
    } else if b == 0x78 {
        lemma_reach_len7(b);
    } else if b == 0x79 {
        lemma_reach_len7(b);
    } else if b == 0x7A {
        lemma_reach_len7(b);
    } else if b == 0x7B {
        lemma_reach_len7(b);
    } else if b == 0x7C {
        lemma_reach_len7(b);
    } else if b == 0x7D {
        lemma_reach_len7(b);
    } else if b == 0x7E {
        lemma_reach_len7(b);
    } else if b == 0x7F {
        lemma_reach_len7(b);
    } else if b == 0x80 {
        lemma_reach_len5(b);
    } else if b == 0x81 {
        lemma_reach_len5(b);
    } else if b == 0x82 {
        lemma_reach_len5(b);
    } else if b == 0x83 {
        lemma_reach_len5(b);
    } else if b == 0x84 {
        lemma_reach_len5(b);
    } else if b == 0x85 {
        lemma_reach_len5(b);
    } else if b == 0x86 {
        lemma_reach_len5(b);
    } else if b == 0x87 {
        lemma_reach_len5(b);
    } else if b == 0x88 {
        lemma_reach_len5(b);
    } else if b == 0x89 {
        lemma_reach_len5(b);
    } else if b == 0x8A {
        lemma_reach_len5(b);
    } else if b == 0x8B {
        lemma_reach_len5(b);
    } else if b == 0x8C {
        lemma_reach_len5(b);
    } else if b == 0x8D {
        lemma_reach_len5(b);
    } else if b == 0x8E {
        lemma_reach_len5(b);
    } else if b == 0x8F {
        lemma_reach_len5(b);
    } else if b == 0x90 {
        lemma_reach_len5(b);
    } else if b == 0x91 {
        lemma_reach_len5(b);
    } else if b == 0x92 {
        lemma_reach_len5(b);
    } else if b == 0x93 {
        lemma_reach_len5(b);
    } else if b == 0x94 {
        lemma_reach_len5(b);
    } else if b == 0x95 {
        lemma_reach_len5(b);
    } else if b == 0x96 {
        lemma_reach_len5(b);
    } else if b == 0x97 {
        lemma_reach_len5(b);
    } else if b == 0x98 {
        lemma_reach_len5(b);
    } else if b == 0x99 {
        lemma_reach_len5(b);
    } else if b == 0x9A {
        lemma_reach_len5(b);
    } else if b == 0x9B {
        lemma_reach_len5(b);
    } else if b == 0x9C {
        lemma_reach_len5(b);
    } else if b == 0x9D {
        lemma_reach_len5(b);
    } else if b == 0x9E {
        lemma_reach_len5(b);
    } else if b == 0x9F {
        lemma_reach_len5(b);
    } else if b == 0xA0 {
        lemma_reach_len5(b);
    } else if b == 0xA1 {
        lemma_reach_len5(b);
    } else if b == 0xA2 {
        lemma_reach_len5(b);
    } else if b == 0xA3 {
        lemma_reach_len5(b);
    } else if b == 0xA4 {
        lemma_reach_len5(b);
    } else if b == 0xA5 {
        lemma_reach_len5(b);
    } else if b == 0xA6 {
        lemma_reach_len5(b);
    } else if b == 0xA7 {
        lemma_reach_len5(b);
    } else if b == 0xA8 {
        lemma_reach_len5(b);
    } else if b == 0xA9 {
        lemma_reach_len5(b);
    } else if b == 0xAA {
        lemma_reach_len5(b);
    } else if b == 0xAB {
        lemma_reach_len5(b);
    } else if b == 0xAC {
        lemma_reach_len5(b);
    } else if b == 0xAD {
        lemma_reach_len5(b);
    } else if b == 0xAE {
        lemma_reach_len5(b);
    } else if b == 0xAF {
        lemma_reach_len5(b);
    } else if b == 0xB0 {
        lemma_reach_len5(b);
    } else if b == 0xB1 {
        lemma_reach_len5(b);
    } else if b == 0xB2 {
        lemma_reach_len5(b);
    } else if b == 0xB3 {
        lemma_reach_len5(b);
    } else if b == 0xB4 {
        lemma_reach_len5(b);
    } else if b == 0xB5 {
        lemma_reach_len5(b);
    } else if b == 0xB6 {
        lemma_reach_len5(b);
    } else if b == 0xB7 {
        lemma_reach_len5(b);
    } else if b == 0xB8 {
        lemma_reach_len5(b);
    } else if b == 0xB9 {
        lemma_reach_len5(b);
    } else if b == 0xBA {
        lemma_reach_len5(b);
    } else if b == 0xBB {
        lemma_reach_len5(b);
    } else if b == 0xBC {
        lemma_reach_len5(b);
    } else if b == 0xBD {
        lemma_reach_len5(b);
    } else if b == 0xBE {
        lemma_reach_len5(b);
    } else if b == 0xBF {
        lemma_reach_len5(b);
    } else if b == 0xC0 {
        lemma_reach_len3(b);
    } else if b == 0xC1 {
        lemma_reach_len5(b);
    } else if b == 0xC2 {
        lemma_reach_len3(b);
    } else if b == 0xC3 {
        lemma_reach_len3(b);
    } else if b == 0xC4 {
        lemma_reach_len3(b);
    } else if b == 0xC5 {
        lemma_reach_len6(b);
    } else if b == 0xC6 {
        lemma_reach_len3(b);
    } else if b == 0xC7 {
        lemma_reach_len5(b);
    } else if b == 0xC8 {
        lemma_reach_len2(b);
    } else if b == 0xC9 {
        lemma_reach_len3(b);
    } else if b == 0xCA {
        lemma_reach_len2(b);
    } else if b == 0xCC {
        lemma_reach_len2(b);
    } else if b == 0xCD {
        lemma_reach_len4(b);
    } else if b == 0xCE {
        lemma_reach_len3(b);
    } else if b == 0xCF {
        lemma_reach_len5(b);
    } else if b == 0xD0 {
        lemma_reach_len3(b);
    } else if b == 0xD1 {
        lemma_reach_len5(b);
    } else if b == 0xD2 {
        lemma_reach_len3(b);
    } else if b == 0xD3 {
        lemma_reach_len3(b);
    } else if b == 0xD4 {
        lemma_reach_len3(b);
    } else if b == 0xD5 {
        lemma_reach_len6(b);
    } else if b == 0xD6 {
        lemma_reach_len3(b);
    } else if b == 0xD7 {
        lemma_reach_len5(b);
    } else if b == 0xD8 {
        lemma_reach_len2(b);
    } else if b == 0xDA {
        lemma_reach_len2(b);
    } else if b == 0xDB {
        lemma_reach_len2(b);
    } else if b == 0xDC {
        lemma_reach_len2(b);
    } else if b == 0xDE {
        lemma_reach_len3(b);
    } else if b == 0xDF {
        lemma_reach_len5(b);
    } else if b == 0xE0 {
        lemma_reach_len3(b);
    } else if b == 0xE1 {
        lemma_reach_len5(b);
    } else if b == 0xE2 {
        lemma_reach_len3(b);
    } else if b == 0xE3 {
        lemma_reach_len4(b);
    } else if b == 0xE4 {
        lemma_reach_len3(b);
    } else if b == 0xE5 {
        lemma_reach_len6(b);
    } else if b == 0xE6 {
        lemma_reach_len3(b);
    } else if b == 0xE7 {
        lemma_reach_len5(b);
    } else if b == 0xE8 {
        lemma_reach_len3(b);
    } else if b == 0xE9 {
        lemma_reach_len4(b);
    } else if b == 0xEA {
        lemma_reach_len3(b);
    } else if b == 0xEB {
        lemma_reach_len4(b);
    } else if b == 0xEC {
        lemma_reach_len3(b);
    } else if b == 0xEE {
        lemma_reach_len3(b);
    } else if b == 0xEF {
        lemma_reach_len5(b);
    } else if b == 0xF0 {
        lemma_reach_len2(b);
    } else if b == 0xF1 {
        lemma_reach_len7(b);
    } else if b == 0xF2 {
        lemma_reach_len2(b);
    } else if b == 0xF3 {
        lemma_reach_len2(b);
    } else if b == 0xF4 {
        lemma_reach_len2(b);
    } else if b == 0xF5 {
        lemma_reach_len8(b);
    } else if b == 0xF6 {
        lemma_reach_len3(b);
    } else if b == 0xF7 {
        lemma_reach_len5(b);
    } else if b == 0xF8 {
        lemma_reach_len2(b);
    } else if b == 0xF9 {
        lemma_reach_len4(b);
    } else if b == 0xFA {
        lemma_reach_len2(b);
    } else if b == 0xFB {
        lemma_reach_len2(b);
    } else if b == 0xFC {
        lemma_reach_len2(b);
    } else if b == 0xFE {
        lemma_reach_len3(b);
    } else if b == 0xFF {
        lemma_reach_len5(b);
    }
}

} // verus!
