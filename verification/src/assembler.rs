//! The two-pass assembler.
//!
//! The lexical layer turns source text into tokens: mnemonics with
//! their operand counts, register operands, hex data, labels and
//! symbols.  Pass one walks the tokens with an address cursor and
//! records each label; pass two emits one opcode byte per mnemonic,
//! resolves data and symbols into little-endian immediates, and builds
//! the human-readable listing.  Every stage is specified exactly over
//! the view of the source text.

use vstd::prelude::*;

use crate::hex::{chars_to_string, hex_char_val, hex_digit_char, hex_val, push_hex2, push_hex4,
    render_hex2, render_hex4};
use crate::optable::{eq_str, get_opcode, spec_opcode};

verus! {

/// An assembler token, abstractly.
#[verifier::ext_equal]
pub ghost enum TokenV {
    /// A mnemonic keyword with its register-operand count and its
    /// immediate-byte count.
    Mnemonic(Seq<char>, u8, u8),
    /// A register, register-pair or restart-digit operand.
    Operand(Seq<char>),
    /// A 16-bit literal parsed from a hex-suffixed word.
    Data(u16),
    /// A label definition: a word ending in a colon.
    Label(Seq<char>),
    /// Any other word: a reference to a label.
    Symbol(Seq<char>),
}

/// An assembler token.
pub enum Token {
    /// A mnemonic keyword with its register-operand count and its
    /// immediate-byte count.
    Mnemonic(Vec<char>, u8, u8),
    /// A register, register-pair or restart-digit operand.
    Operand(Vec<char>),
    /// A 16-bit literal parsed from a hex-suffixed word.
    Data(u16),
    /// A label definition: a word ending in a colon.
    Label(Vec<char>),
    /// Any other word: a reference to a label.
    Symbol(Vec<char>),
}

impl View for Token {
    type V = TokenV;

    open spec fn view(&self) -> TokenV {
        match self {
            Token::Mnemonic(w, nr, no) => TokenV::Mnemonic(w@, *nr, *no),
            Token::Operand(w) => TokenV::Operand(w@),
            Token::Data(d) => TokenV::Data(*d),
            Token::Label(w) => TokenV::Label(w@),
            Token::Symbol(w) => TokenV::Symbol(w@),
        }
    }
}

/// An assembly failure, abstractly; each variant carries the offending
/// text.
#[verifier::ext_equal]
pub ghost enum AsmErrorV {
    /// A mnemonic was not followed by the register operands it needs.
    CannotComplete(Seq<char>),
    /// The joined key of a mnemonic and its operands is not in the
    /// opcode table.
    UnknownOpcode(Seq<char>),
    /// A symbol stood where an immediate is expected but no label of
    /// that name was defined.
    SymbolNotFound(Seq<char>),
    /// A mnemonic needs an immediate but none follows, or an operand,
    /// data word or symbol stands on its own.
    Syntax(Seq<char>),
}

/// An assembly failure; each variant carries the offending text.
#[derive(Debug)]
pub enum AsmError {
    /// A mnemonic was not followed by the register operands it needs.
    CannotComplete(Vec<char>),
    /// The joined key of a mnemonic and its operands is not in the
    /// opcode table.
    UnknownOpcode(Vec<char>),
    /// A symbol stood where an immediate is expected but no label of
    /// that name was defined.
    SymbolNotFound(Vec<char>),
    /// A mnemonic needs an immediate but none follows, or an operand,
    /// data word or symbol stands on its own.
    Syntax(Vec<char>),
}

impl View for AsmError {
    type V = AsmErrorV;

    open spec fn view(&self) -> AsmErrorV {
        match self {
            AsmError::CannotComplete(w) => AsmErrorV::CannotComplete(w@),
            AsmError::UnknownOpcode(w) => AsmErrorV::UnknownOpcode(w@),
            AsmError::SymbolNotFound(w) => AsmErrorV::SymbolNotFound(w@),
            AsmError::Syntax(w) => AsmErrorV::Syntax(w@),
        }
    }
}

/// The mnemonic keywords with their register-operand and
/// immediate-byte counts.
pub open spec fn spec_mnemonic(w: Seq<char>) -> Option<(u8, u8)> {
    if w == "aci"@ {
        Some((0u8, 1u8))
    } else if w == "adc"@ {
        Some((1u8, 0u8))
    } else if w == "add"@ {
        Some((1u8, 0u8))
    } else if w == "adi"@ {
        Some((0u8, 1u8))
    } else if w == "ana"@ {
        Some((1u8, 0u8))
    } else if w == "ani"@ {
        Some((0u8, 1u8))
    } else if w == "call"@ {
        Some((0u8, 2u8))
    } else if w == "cc"@ {
        Some((0u8, 2u8))
    } else if w == "cm"@ {
        Some((0u8, 2u8))
    } else if w == "cma"@ {
        Some((0u8, 0u8))
    } else if w == "cmc"@ {
        Some((0u8, 0u8))
    } else if w == "cmp"@ {
        Some((1u8, 0u8))
    } else if w == "cnc"@ {
        Some((0u8, 2u8))
    } else if w == "cnz"@ {
        Some((0u8, 2u8))
    } else if w == "cp"@ {
        Some((0u8, 2u8))
    } else if w == "cpe"@ {
        Some((0u8, 2u8))
    } else if w == "cpi"@ {
        Some((0u8, 1u8))
    } else if w == "cpo"@ {
        Some((0u8, 2u8))
    } else if w == "cz"@ {
        Some((0u8, 2u8))
    } else if w == "daa"@ {
        Some((0u8, 0u8))
    } else if w == "dad"@ {
        Some((1u8, 0u8))
    } else if w == "dcr"@ {
        Some((1u8, 0u8))
    } else if w == "dcx"@ {
        Some((1u8, 0u8))
    } else if w == "di"@ {
        Some((0u8, 0u8))
    } else if w == "ei"@ {
        Some((0u8, 0u8))
    } else if w == "hlt"@ {
        Some((0u8, 0u8))
    } else if w == "in"@ {
        Some((0u8, 1u8))
    } else if w == "inr"@ {
        Some((1u8, 0u8))
    } else if w == "inx"@ {
        Some((1u8, 0u8))
    } else if w == "jc"@ {
        Some((0u8, 2u8))
    } else if w == "jm"@ {
        Some((0u8, 2u8))
    } else if w == "jmp"@ {
        Some((0u8, 2u8))
    } else if w == "jnc"@ {
        Some((0u8, 2u8))
    } else if w == "jnz"@ {
        Some((0u8, 2u8))
    } else if w == "jp"@ {
        Some((0u8, 2u8))
    } else if w == "jpe"@ {
        Some((0u8, 2u8))
    } else if w == "jpo"@ {
        Some((0u8, 2u8))
    } else if w == "jz"@ {
        Some((0u8, 2u8))
    } else if w == "lda"@ {
        Some((0u8, 2u8))
    } else if w == "ldax"@ {
        Some((1u8, 0u8))
    } else if w == "lhld"@ {
        Some((0u8, 2u8))
    } else if w == "lxi"@ {
        Some((1u8, 2u8))
    } else if w == "mov"@ {
        Some((2u8, 0u8))
    } else if w == "mvi"@ {
        Some((1u8, 1u8))
    } else if w == "nop"@ {
        Some((0u8, 0u8))
    } else if w == "ora"@ {
        Some((1u8, 0u8))
    } else if w == "ori"@ {
        Some((0u8, 1u8))
    } else if w == "out"@ {
        Some((0u8, 1u8))
    } else if w == "pchl"@ {
        Some((0u8, 0u8))
    } else if w == "pop"@ {
        Some((1u8, 0u8))
    } else if w == "push"@ {
        Some((1u8, 0u8))
    } else if w == "ral"@ {
        Some((0u8, 0u8))
    } else if w == "rar"@ {
        Some((0u8, 0u8))
    } else if w == "rc"@ {
        Some((0u8, 0u8))
    } else if w == "ret"@ {
        Some((0u8, 0u8))
    } else if w == "rim"@ {
        Some((0u8, 0u8))
    } else if w == "rlc"@ {
        Some((0u8, 0u8))
    } else if w == "rm"@ {
        Some((0u8, 0u8))
    } else if w == "rnc"@ {
        Some((0u8, 0u8))
    } else if w == "rnz"@ {
        Some((0u8, 0u8))
    } else if w == "rp"@ {
        Some((0u8, 0u8))
    } else if w == "rpe"@ {
        Some((0u8, 0u8))
    } else if w == "rpo"@ {
        Some((0u8, 0u8))
    } else if w == "rrc"@ {
        Some((0u8, 0u8))
    } else if w == "rst"@ {
        Some((1u8, 0u8))
    } else if w == "rz"@ {
        Some((0u8, 0u8))
    } else if w == "sbb"@ {
        Some((1u8, 0u8))
    } else if w == "sbi"@ {
        Some((0u8, 1u8))
    } else if w == "shld"@ {
        Some((0u8, 2u8))
    } else if w == "sim"@ {
        Some((0u8, 0u8))
    } else if w == "sphl"@ {
        Some((0u8, 0u8))
    } else if w == "sta"@ {
        Some((0u8, 2u8))
    } else if w == "stax"@ {
        Some((1u8, 0u8))
    } else if w == "stc"@ {
        Some((0u8, 0u8))
    } else if w == "sub"@ {
        Some((1u8, 0u8))
    } else if w == "sui"@ {
        Some((0u8, 1u8))
    } else if w == "xchg"@ {
        Some((0u8, 0u8))
    } else if w == "xra"@ {
        Some((1u8, 0u8))
    } else if w == "xri"@ {
        Some((0u8, 1u8))
    } else if w == "xthl"@ {
        Some((0u8, 0u8))
    } else {
        None
    }
}

/// Looks a word up in the mnemonic keyword table.
#[verifier::rlimit(100)]
#[verifier::spinoff_prover]
fn mnemonic_counts(w: &Vec<char>) -> (r: Option<(u8, u8)>)
    ensures
        r == spec_mnemonic(w@),
{
    if eq_str(w, "aci") {
        Some((0, 1))
    } else if eq_str(w, "adc") {
        Some((1, 0))
    } else if eq_str(w, "add") {
        Some((1, 0))
    } else if eq_str(w, "adi") {
        Some((0, 1))
    } else if eq_str(w, "ana") {
        Some((1, 0))
    } else if eq_str(w, "ani") {
        Some((0, 1))
    } else if eq_str(w, "call") {
        Some((0, 2))
    } else if eq_str(w, "cc") {
        Some((0, 2))
    } else if eq_str(w, "cm") {
        Some((0, 2))
    } else if eq_str(w, "cma") {
        Some((0, 0))
    } else if eq_str(w, "cmc") {
        Some((0, 0))
    } else if eq_str(w, "cmp") {
        Some((1, 0))
    } else if eq_str(w, "cnc") {
        Some((0, 2))
    } else if eq_str(w, "cnz") {
        Some((0, 2))
    } else if eq_str(w, "cp") {
        Some((0, 2))
    } else if eq_str(w, "cpe") {
        Some((0, 2))
    } else if eq_str(w, "cpi") {
        Some((0, 1))
    } else if eq_str(w, "cpo") {
        Some((0, 2))
    } else if eq_str(w, "cz") {
        Some((0, 2))
    } else if eq_str(w, "daa") {
        Some((0, 0))
    } else if eq_str(w, "dad") {
        Some((1, 0))
    } else if eq_str(w, "dcr") {
        Some((1, 0))
    } else if eq_str(w, "dcx") {
        Some((1, 0))
    } else if eq_str(w, "di") {
        Some((0, 0))
    } else if eq_str(w, "ei") {
        Some((0, 0))
    } else if eq_str(w, "hlt") {
        Some((0, 0))
    } else if eq_str(w, "in") {
        Some((0, 1))
    } else if eq_str(w, "inr") {
        Some((1, 0))
    } else if eq_str(w, "inx") {
        Some((1, 0))
    } else if eq_str(w, "jc") {
        Some((0, 2))
    } else if eq_str(w, "jm") {
        Some((0, 2))
    } else if eq_str(w, "jmp") {
        Some((0, 2))
    } else if eq_str(w, "jnc") {
        Some((0, 2))
    } else if eq_str(w, "jnz") {
        Some((0, 2))
    } else if eq_str(w, "jp") {
        Some((0, 2))
    } else if eq_str(w, "jpe") {
        Some((0, 2))
    } else if eq_str(w, "jpo") {
        Some((0, 2))
    } else if eq_str(w, "jz") {
        Some((0, 2))
    } else if eq_str(w, "lda") {
        Some((0, 2))
    } else if eq_str(w, "ldax") {
        Some((1, 0))
    } else if eq_str(w, "lhld") {
        Some((0, 2))
    } else if eq_str(w, "lxi") {
        Some((1, 2))
    } else if eq_str(w, "mov") {
        Some((2, 0))
    } else if eq_str(w, "mvi") {
        Some((1, 1))
    } else if eq_str(w, "nop") {
        Some((0, 0))
    } else if eq_str(w, "ora") {
        Some((1, 0))
    } else if eq_str(w, "ori") {
        Some((0, 1))
    } else if eq_str(w, "out") {
        Some((0, 1))
    } else if eq_str(w, "pchl") {
        Some((0, 0))
    } else if eq_str(w, "pop") {
        Some((1, 0))
    } else if eq_str(w, "push") {
        Some((1, 0))
    } else if eq_str(w, "ral") {
        Some((0, 0))
    } else if eq_str(w, "rar") {
        Some((0, 0))
    } else if eq_str(w, "rc") {
        Some((0, 0))
    } else if eq_str(w, "ret") {
        Some((0, 0))
    } else if eq_str(w, "rim") {
        Some((0, 0))
    } else if eq_str(w, "rlc") {
        Some((0, 0))
    } else if eq_str(w, "rm") {
        Some((0, 0))
    } else if eq_str(w, "rnc") {
        Some((0, 0))
    } else if eq_str(w, "rnz") {
        Some((0, 0))
    } else if eq_str(w, "rp") {
        Some((0, 0))
    } else if eq_str(w, "rpe") {
        Some((0, 0))
    } else if eq_str(w, "rpo") {
        Some((0, 0))
    } else if eq_str(w, "rrc") {
        Some((0, 0))
    } else if eq_str(w, "rst") {
        Some((1, 0))
    } else if eq_str(w, "rz") {
        Some((0, 0))
    } else if eq_str(w, "sbb") {
        Some((1, 0))
    } else if eq_str(w, "sbi") {
        Some((0, 1))
    } else if eq_str(w, "shld") {
        Some((0, 2))
    } else if eq_str(w, "sim") {
        Some((0, 0))
    } else if eq_str(w, "sphl") {
        Some((0, 0))
    } else if eq_str(w, "sta") {
        Some((0, 2))
    } else if eq_str(w, "stax") {
        Some((1, 0))
    } else if eq_str(w, "stc") {
        Some((0, 0))
    } else if eq_str(w, "sub") {
        Some((1, 0))
    } else if eq_str(w, "sui") {
        Some((0, 1))
    } else if eq_str(w, "xchg") {
        Some((0, 0))
    } else if eq_str(w, "xra") {
        Some((1, 0))
    } else if eq_str(w, "xri") {
        Some((0, 1))
    } else if eq_str(w, "xthl") {
        Some((0, 0))
    } else {
        None
    }
}

/// The register, register-pair and restart-digit operand words.
pub open spec fn spec_operand(w: Seq<char>) -> bool {
    w == "a"@ || w == "b"@ || w == "c"@ || w == "d"@ || w == "e"@ || w == "h"@ || w == "l"@ || w == "m"@ || w == "ab"@ || w == "bc"@ || w == "de"@ || w == "hl"@ || w == "psw"@ || w == "sp"@ || w == "0"@ || w == "1"@ || w == "2"@ || w == "3"@ || w == "4"@ || w == "5"@ || w == "6"@ || w == "7"@
}

/// Whether a word is an operand keyword.
#[verifier::rlimit(100)]
#[verifier::spinoff_prover]
fn is_operand(w: &Vec<char>) -> (r: bool)
    ensures
        r == spec_operand(w@),
{
    if eq_str(w, "a") {
        true
    } else if eq_str(w, "b") {
        true
    } else if eq_str(w, "c") {
        true
    } else if eq_str(w, "d") {
        true
    } else if eq_str(w, "e") {
        true
    } else if eq_str(w, "h") {
        true
    } else if eq_str(w, "l") {
        true
    } else if eq_str(w, "m") {
        true
    } else if eq_str(w, "ab") {
        true
    } else if eq_str(w, "bc") {
        true
    } else if eq_str(w, "de") {
        true
    } else if eq_str(w, "hl") {
        true
    } else if eq_str(w, "psw") {
        true
    } else if eq_str(w, "sp") {
        true
    } else if eq_str(w, "0") {
        true
    } else if eq_str(w, "1") {
        true
    } else if eq_str(w, "2") {
        true
    } else if eq_str(w, "3") {
        true
    } else if eq_str(w, "4") {
        true
    } else if eq_str(w, "5") {
        true
    } else if eq_str(w, "6") {
        true
    } else if eq_str(w, "7") {
        true
    } else {
        false
    }
}

/// ASCII upper-case letters fold to lower case; every other character
/// stays itself.
pub open spec fn lower(c: char) -> char {
    if 65 <= c as u32 <= 90 {
        ((c as u8) + 32) as char
    } else {
        c
    }
}

/// The word separators: space, tab, carriage return and the comma,
/// which counts as pure whitespace.
pub open spec fn is_ws(c: char) -> bool {
    c == ' ' || c == '\t' || c == '\r' || c == ','
}

/// The word with its trailing colons removed.
pub open spec fn strip_colons(w: Seq<char>) -> Seq<char>
    decreases w.len(),
{
    if w.len() > 0 && w.last() == ':' {
        strip_colons(w.drop_last())
    } else {
        w
    }
}

/// The value of a sequence of hex digits, most significant first, or
/// `None` if any character is not a lowercase hex digit.
pub open spec fn spec_hex_val(d: Seq<char>) -> Option<int>
    decreases d.len(),
{
    if d.len() == 0 {
        Some(0int)
    } else {
        match (spec_hex_val(d.drop_last()), hex_char_val(d.last())) {
            (Some(hi), Some(lo)) => Some(hi * 16 + lo),
            _ => None,
        }
    }
}

/// Sixteen to the power `n`.
pub open spec fn pow16(n: nat) -> int
    decreases n,
{
    if n == 0 {
        1
    } else {
        16 * pow16((n - 1) as nat)
    }
}

/// A digit string's value is bounded by sixteen to its length.
proof fn lemma_hex_val_bound(d: Seq<char>)
    ensures
        spec_hex_val(d) matches Some(v) ==> 0 <= v < pow16(d.len()),
    decreases d.len(),
{
    if d.len() > 0 {
        lemma_hex_val_bound(d.drop_last());
    }
}

/// Sixteen to a power up to fifteen stays within sixty bits.
proof fn lemma_pow16_le_15(n: nat)
    requires
        n <= 15,
    ensures
        0 < pow16(n) <= 0x1000000000000000,
    decreases 15 - n,
{
    if n == 15 {
        reveal_with_fuel(pow16, 16);
        assert(pow16(15) == 0x1000000000000000);
    } else {
        lemma_pow16_le_15((n + 1) as nat);
        assert(pow16((n + 1) as nat) == 16 * pow16(n));
    }
}

/// Whether the word is a hex literal: an `h` suffix on one to sixteen
/// hex digits.  This test comes before the keyword tables, so `0fh` is
/// data even though `f` alone would be a symbol and `b` a register.
pub open spec fn is_hex_literal(w: Seq<char>) -> bool {
    w.len() >= 2 && w.len() <= 17 && w.last() == 'h' && spec_hex_val(w.drop_last()) is Some
}

/// The 16-bit value of a hex literal: the low 16 bits of its digits.
pub open spec fn hex_literal_val(w: Seq<char>) -> u16 {
    ((spec_hex_val(w.drop_last())->Some_0) % 0x10000) as u16
}

/// The token for one whitespace-delimited, lowercased word: a trailing
/// colon makes a label; then the hex-suffix rule; then the mnemonic
/// and operand keyword tables; any other word is a symbol.
pub open spec fn spec_token(w: Seq<char>) -> TokenV {
    if w.len() > 0 && w.last() == ':' {
        TokenV::Label(strip_colons(w))
    } else if is_hex_literal(w) {
        TokenV::Data(hex_literal_val(w))
    } else if spec_mnemonic(w) is Some {
        TokenV::Mnemonic(w, spec_mnemonic(w)->Some_0.0, spec_mnemonic(w)->Some_0.1)
    } else if spec_operand(w) {
        TokenV::Operand(w)
    } else {
        TokenV::Symbol(w)
    }
}

/// One step per character: accumulate lowercased word characters,
/// flush a token at each separator, and drop everything from a `;` to
/// the end of its line.
pub open spec fn spec_lex(
    s: Seq<char>,
    i: int,
    acc: Seq<char>,
    comment: bool,
    toks: Seq<TokenV>,
) -> Seq<TokenV>
    decreases s.len() - i,
{
    if i < 0 || i >= s.len() {
        if acc.len() > 0 {
            toks.push(spec_token(acc))
        } else {
            toks
        }
    } else {
        let c = lower(s[i]);
        if comment {
            if c == '\n' {
                spec_lex(s, i + 1, acc, false, toks)
            } else {
                spec_lex(s, i + 1, acc, true, toks)
            }
        } else if c == '\n' || is_ws(c) || c == ';' {
            let toks2 = if acc.len() > 0 {
                toks.push(spec_token(acc))
            } else {
                toks
            };
            spec_lex(s, i + 1, Seq::empty(), c == ';', toks2)
        } else {
            spec_lex(s, i + 1, acc.push(c), false, toks)
        }
    }
}

/// The token stream of a source text.
pub open spec fn spec_tokenize(s: Seq<char>) -> Seq<TokenV> {
    spec_lex(s, 0, Seq::empty(), false, Seq::empty())
}

/// Copies a vector of characters.
fn clone_chars(v: &Vec<char>) -> (r: Vec<char>)
    ensures
        r@ == v@,
{
    let mut r: Vec<char> = Vec::new();
    let mut i: usize = 0;
    while i < v.len()
        invariant
            i <= v@.len(),
            r@ == v@.take(i as int),
        decreases v@.len() - i,
    {
        r.push(v[i]);
        proof {
            assert(r@ =~= v@.take(i + 1));
        }
        i = i + 1;
    }
    proof {
        assert(r@ =~= v@);
    }
    r
}

/// Turns one lowercased word into its token.
fn token_of_word(w: Vec<char>) -> (r: Token)
    ensures
        r@ == spec_token(w@),
{
    if w.len() > 0 && w[w.len() - 1] == ':' {
        let mut t = w;
        while t.len() > 0 && t[t.len() - 1] == ':'
            invariant
                strip_colons(t@) == strip_colons(w@),
            decreases t@.len(),
        {
            t.pop();
        }
        return Token::Label(t);
    }
    if w.len() >= 2 && w.len() <= 17 && w[w.len() - 1] == 'h' {
        let mut ok = true;
        let mut acc: u64 = 0;
        let n = w.len() - 1;
        let mut i: usize = 0;
        while i < n
            invariant
                n == w@.len() - 1,
                n <= 16,
                i <= n,
                ok ==> spec_hex_val(w@.take(i as int)) == Some(acc as int),
                !ok ==> spec_hex_val(w@.take(n as int)) is None,
            decreases n - i,
        {
            if ok {
                match hex_val(w[i]) {
                    Some(d) => {
                        proof {
                            assert(w@.take(i + 1).drop_last() =~= w@.take(i as int));
                            lemma_hex_val_bound(w@.take(i as int));
                            lemma_pow16_le_15(i as nat);
                        }
                        acc = acc * 16 + d as u64;
                    },
                    None => {
                        proof {
                            lemma_hex_prefix_none(w@.take(n as int), i as int);
                        }
                        ok = false;
                    },
                }
            }
            i = i + 1;
        }
        if ok {
            proof {
                assert(w@.take(n as int) =~= w@.drop_last());
            }
            return Token::Data((acc % 0x10000) as u16);
        }
        proof {
            assert(w@.take(n as int) =~= w@.drop_last());
        }
    }
    match mnemonic_counts(&w) {
        Some((nr, no)) => {
            return Token::Mnemonic(w, nr, no);
        },
        None => {},
    }
    if is_operand(&w) {
        return Token::Operand(w);
    }
    Token::Symbol(w)
}

/// A non-digit anywhere in the prefix makes the whole prefix parse
/// fail.
proof fn lemma_hex_prefix_none(d: Seq<char>, i: int)
    requires
        0 <= i < d.len(),
        hex_char_val(d[i]) is None,
    ensures
        spec_hex_val(d) is None,
    decreases d.len(),
{
    if d.len() > 0 && i < d.len() - 1 {
        lemma_hex_prefix_none(d.drop_last(), i);
    }
}

/// Tokenizes a whole source text: words are separated by whitespace or
/// commas, a `;` starts a comment that runs to the end of the line,
/// and every character is folded to lower case.
pub fn tokenize_words(code: &str) -> (r: Vec<Token>)
    ensures
        r@.map_values(|t: Token| t@) == spec_tokenize(code@),
{
    let n = code.unicode_len();
    let mut toks: Vec<Token> = Vec::new();
    let mut acc: Vec<char> = Vec::new();
    let mut comment = false;
    let mut i: usize = 0;
    proof {
        assert(toks@.map_values(|t: Token| t@) =~= Seq::<TokenV>::empty());
        assert(acc@ =~= Seq::<char>::empty());
    }
    while i < n
        invariant
            n == code@.len(),
            i <= n,
            spec_tokenize(code@) == spec_lex(
                code@,
                i as int,
                acc@,
                comment,
                toks@.map_values(|t: Token| t@),
            ),
        decreases n - i,
    {
        let ghost pre_toks = toks@.map_values(|t: Token| t@);
        let c0 = code.get_char(i);
        let c: char = if (c0 as u32) >= 65 && (c0 as u32) <= 90 {
            ((c0 as u8) + 32) as char
        } else {
            c0
        };
        if comment {
            if c == '\n' {
                comment = false;
            }
        } else if c == '\n' || c == ' ' || c == '\t' || c == '\r' || c == ',' || c == ';' {
            if acc.len() > 0 {
                let ghost old_acc = acc@;
                let word = acc;
                acc = Vec::new();
                let t = token_of_word(word);
                toks.push(t);
                proof {
                    assert(toks@.map_values(|t: Token| t@) =~= pre_toks.push(spec_token(old_acc)));
                }
            }
            proof {
                assert(acc@ =~= Seq::<char>::empty());
            }
            comment = c == ';';
        } else {
            acc.push(c);
        }
        i = i + 1;
    }
    if acc.len() > 0 {
        let ghost pre_toks = toks@.map_values(|t: Token| t@);
        let ghost old_acc = acc@;
        let word = acc;
        let t = token_of_word(word);
        toks.push(t);
        proof {
            assert(toks@.map_values(|t: Token| t@) =~= pre_toks.push(spec_token(old_acc)));
        }
    }
    toks
}


/// The map a label table represents: later entries shadow earlier
/// ones.
pub open spec fn symtab_map(s: Seq<(Vec<char>, u128)>) -> Map<Seq<char>, int>
    decreases s.len(),
{
    if s.len() == 0 {
        Map::empty()
    } else {
        symtab_map(s.drop_last()).insert(s.last().0@, s.last().1 as int)
    }
}

/// Appending a label entry updates exactly its name in the map.
proof fn lemma_symtab_push(s: Seq<(Vec<char>, u128)>, p: (Vec<char>, u128))
    ensures
        symtab_map(s.push(p)) == symtab_map(s).insert(p.0@, p.1 as int),
{
    assert(s.push(p).drop_last() =~= s);
}

/// A name matching no entry is absent from the map.
proof fn lemma_symtab_absent(s: Seq<(Vec<char>, u128)>, k: Seq<char>)
    requires
        forall|i: int| 0 <= i < s.len() ==> s[i].0@ != k,
    ensures
        !symtab_map(s).contains_key(k),
    decreases s.len(),
{
    if s.len() > 0 {
        lemma_symtab_absent(s.drop_last(), k);
    }
}

/// The last entry with a given name decides the map's value there.
proof fn lemma_symtab_last(s: Seq<(Vec<char>, u128)>, i: int)
    requires
        0 <= i < s.len(),
        forall|j: int| i < j < s.len() ==> s[j].0@ != s[i].0@,
    ensures
        symtab_map(s).contains_key(s[i].0@),
        symtab_map(s)[s[i].0@] == s[i].1 as int,
    decreases s.len(),
{
    if i < s.len() - 1 {
        lemma_symtab_last(s.drop_last(), i);
    }
}

/// Compares two character vectors.
fn chars_eq(a: &Vec<char>, b: &Vec<char>) -> (r: bool)
    ensures
        r == (a@ == b@),
{
    if a.len() != b.len() {
        proof {
            if a@ == b@ {
                assert(a@.len() == b@.len());
            }
        }
        return false;
    }
    let mut i: usize = 0;
    while i < a.len()
        invariant
            a@.len() == b@.len(),
            i <= a@.len(),
            forall|j: int| 0 <= j < i ==> a@[j] == b@[j],
        decreases a@.len() - i,
    {
        if a[i] != b[i] {
            proof {
                if a@ == b@ {
                    assert(a@[i as int] == b@[i as int]);
                }
            }
            return false;
        }
        i = i + 1;
    }
    proof {
        assert(a@ =~= b@);
    }
    true
}

/// Looks a name up in the label table; the latest definition wins.
fn symtab_lookup(st: &Vec<(Vec<char>, u128)>, name: &Vec<char>) -> (r: Option<u128>)
    ensures
        match r {
            Some(v) => symtab_map(st@).contains_key(name@) && symtab_map(st@)[name@] == v as int,
            None => !symtab_map(st@).contains_key(name@),
        },
{
    let mut i: usize = st.len();
    while i > 0
        invariant
            i <= st@.len(),
            forall|j: int| i <= j < st@.len() ==> st@[j].0@ != name@,
        decreases i,
    {
        i = i - 1;
        if chars_eq(&st[i].0, name) {
            proof {
                lemma_symtab_last(st@, i as int);
            }
            return Some(st[i].1);
        }
    }
    proof {
        lemma_symtab_absent(st@, name@);
    }
    None
}

/// Pass one: walk the tokens with an address cursor, advancing it by
/// one opcode byte plus the immediate width of each mnemonic, and
/// record each label at the cursor's position.  A redefined label
/// keeps its latest address.
pub open spec fn spec_pass1(toks: Seq<TokenV>, i: int, addr: int, m: Map<Seq<char>, int>) -> Map<
    Seq<char>,
    int,
>
    decreases toks.len() - i,
{
    if i < 0 || i >= toks.len() {
        m
    } else {
        match toks[i] {
            TokenV::Mnemonic(_name, _nr, no) => spec_pass1(toks, i + 1, addr + no + 1, m),
            TokenV::Label(s) => spec_pass1(toks, i + 1, addr, m.insert(s, addr)),
            _ => spec_pass1(toks, i + 1, addr, m),
        }
    }
}

/// Builds the label table of pass one.
fn pass1(toks: &Vec<Token>) -> (st: Vec<(Vec<char>, u128)>)
    ensures
        symtab_map(st@) == spec_pass1(
            toks@.map_values(|t: Token| t@),
            0,
            0,
            Map::<Seq<char>, int>::empty(),
        ),
{
    let ghost tv = toks@.map_values(|t: Token| t@);
    let mut st: Vec<(Vec<char>, u128)> = Vec::new();
    let mut addr: u128 = 0;
    let mut i: usize = 0;
    proof {
        assert(symtab_map(st@) =~= Map::<Seq<char>, int>::empty());
    }
    while i < toks.len()
        invariant
            tv == toks@.map_values(|t: Token| t@),
            i <= toks@.len(),
            addr as int <= 0x100 * (i as int),
            spec_pass1(tv, 0, 0, Map::<Seq<char>, int>::empty()) == spec_pass1(
                tv,
                i as int,
                addr as int,
                symtab_map(st@),
            ),
        decreases toks@.len() - i,
    {
        match &toks[i] {
            Token::Mnemonic(_name, _nr, no) => {
                addr = addr + (*no as u128) + 1;
            },
            Token::Label(s) => {
                let ghost pre = st@;
                st.push((clone_chars(s), addr));
                proof {
                    lemma_symtab_push(pre, st@.last());
                }
            },
            _ => {},
        }
        i = i + 1;
    }
    st
}

/// The text a stray top-level token is reported with.
pub open spec fn stray_text(t: TokenV) -> Seq<char> {
    match t {
        TokenV::Operand(o) => o,
        TokenV::Symbol(s) => s,
        TokenV::Label(s) => s,
        TokenV::Data(d) => render_hex4(d as int),
        TokenV::Mnemonic(n, _, _) => n,
    }
}

/// Pass two: one opcode byte per mnemonic, found by joining the
/// mnemonic with its register operands into a table key; then the
/// little-endian immediate bytes, from a data word or a resolved
/// symbol; and one listing line per instruction.  A missing operand,
/// an unknown key, an unresolved symbol and a stray token each abort
/// with their own error.
pub open spec fn spec_pass2(
    toks: Seq<TokenV>,
    i: int,
    addr: int,
    m: Map<Seq<char>, int>,
) -> Result<(Seq<u8>, Seq<char>), AsmErrorV>
    decreases toks.len() - i,
{
    if i < 0 || i >= toks.len() {
        Ok((Seq::empty(), Seq::empty()))
    } else {
        match toks[i] {
            TokenV::Label(_) => spec_pass2(toks, i + 1, addr, m),
            TokenV::Mnemonic(name, nr, no) => {
                if nr > 2 || no > 2 {
                    Err(AsmErrorV::CannotComplete(name))
                } else if i + nr >= toks.len() {
                    Err(AsmErrorV::CannotComplete(name))
                } else {
                    let key = if nr == 0 {
                        Some(name)
                    } else if nr == 1 {
                        match toks[i + 1] {
                            TokenV::Operand(o) => Some(name + seq!['_'] + o),
                            _ => None,
                        }
                    } else {
                        match (toks[i + 1], toks[i + 2]) {
                            (TokenV::Operand(o1), TokenV::Operand(o2)) => Some(
                                name + seq!['_'] + o1 + seq!['_'] + o2,
                            ),
                            _ => None,
                        }
                    };
                    match key {
                        None => Err(AsmErrorV::CannotComplete(name)),
                        Some(k) => match spec_opcode(k) {
                            None => Err(AsmErrorV::UnknownOpcode(k)),
                            Some(op) => {
                                let j = i + 1 + nr;
                                if no == 0 {
                                    let line = render_hex4(addr % 0x10000) + seq!['\t'] + k
                                        + seq!['\n'];
                                    match spec_pass2(toks, j, addr + 1, m) {
                                        Ok((b, l)) => Ok((seq![op] + b, line + l)),
                                        Err(e) => Err(e),
                                    }
                                } else if j >= toks.len() {
                                    Err(AsmErrorV::Syntax(name))
                                } else {
                                    let val = match toks[j] {
                                        TokenV::Data(d) => Some(d as int),
                                        TokenV::Symbol(s) => if m.contains_key(s) {
                                            Some(m[s] % 0x10000)
                                        } else {
                                            None
                                        },
                                        _ => None,
                                    };
                                    match toks[j] {
                                        TokenV::Data(_) | TokenV::Symbol(_) => match val {
                                            None => Err(
                                                AsmErrorV::SymbolNotFound(stray_text(toks[j])),
                                            ),
                                            Some(v) => {
                                                let bytes = if no == 2 {
                                                    seq![op, (v % 256) as u8, ((v / 256) % 256) as u8]
                                                } else {
                                                    seq![op, (v % 256) as u8]
                                                };
                                                let imm = if no == 2 {
                                                    seq![' '] + render_hex4(v)
                                                } else {
                                                    seq![' '] + render_hex2(v % 256)
                                                };
                                                let line = render_hex4(addr % 0x10000)
                                                    + seq!['\t'] + k + imm + seq!['\n'];
                                                match spec_pass2(toks, j + 1, addr + no + 1, m) {
                                                    Ok((b, l)) => Ok((bytes + b, line + l)),
                                                    Err(e) => Err(e),
                                                }
                                            },
                                        },
                                        _ => Err(AsmErrorV::Syntax(name)),
                                    }
                                }
                            },
                        },
                    }
                }
            },
            _ => Err(AsmErrorV::Syntax(stray_text(toks[i]))),
        }
    }
}

/// Appends the characters of `src` to `out`.
fn push_chars(out: &mut Vec<char>, src: &Vec<char>)
    ensures
        final(out)@ == old(out)@ + src@,
{
    let mut i: usize = 0;
    while i < src.len()
        invariant
            i <= src@.len(),
            out@ == old(out)@ + src@.take(i as int),
        decreases src@.len() - i,
    {
        out.push(src[i]);
        proof {
            assert(out@ =~= old(out)@ + src@.take(i + 1));
        }
        i = i + 1;
    }
    proof {
        assert(out@ =~= old(out)@ + src@);
    }
}

/// Emits the binary and the listing for the tokens from `i` on.
#[verifier::rlimit(100)]
fn pass2(toks: &Vec<Token>, i: usize, addr: u128, st: &Vec<(Vec<char>, u128)>) -> (r: Result<
    (Vec<u8>, Vec<char>),
    AsmError,
>)
    requires
        addr as int + 3 * (toks@.len() - i) < 0xffffffffffffffffffffffffffffffff,
    ensures
        match spec_pass2(
            toks@.map_values(|t: Token| t@),
            i as int,
            addr as int,
            symtab_map(st@),
        ) {
            Ok(pair) => r is Ok && r->Ok_0.0@ == pair.0 && r->Ok_0.1@ == pair.1,
            Err(e) => r is Err && r->Err_0@ == e,
        },
    decreases toks@.len() - i,
{
    let ghost tv = toks@.map_values(|t: Token| t@);
    if i >= toks.len() {
        let r: (Vec<u8>, Vec<char>) = (Vec::new(), Vec::new());
        proof {
            assert(r.0@ =~= Seq::<u8>::empty());
            assert(r.1@ =~= Seq::<char>::empty());
        }
        return Ok(r);
    }
    match &toks[i] {
        Token::Label(_) => pass2(toks, i + 1, addr, st),
        Token::Mnemonic(name, nr0, no0) => {
            let nr = *nr0;
            let no = *no0;
            if nr > 2 || no > 2 {
                return Err(AsmError::CannotComplete(clone_chars(name)));
            }
            if nr as usize >= toks.len() - i {
                return Err(AsmError::CannotComplete(clone_chars(name)));
            }
            let mut key = clone_chars(name);
            if nr >= 1 {
                match &toks[i + 1] {
                    Token::Operand(o) => {
                        key.push('_');
                        push_chars(&mut key, o);
                        proof {
                            assert(tv[i + 1] == toks@[i + 1]@);
                            assert(key@ =~= name@ + seq!['_'] + o@);
                        }
                    },
                    _ => {
                        return Err(AsmError::CannotComplete(clone_chars(name)));
                    },
                }
            }
            if nr == 2 {
                let ghost key1 = key@;
                match &toks[i + 2] {
                    Token::Operand(o) => {
                        key.push('_');
                        push_chars(&mut key, o);
                        proof {
                            assert(tv[i + 2] == toks@[i + 2]@);
                            assert(key@ =~= key1 + seq!['_'] + o@);
                            assert(key@ =~= name@ + seq!['_'] + tv[i + 1]->Operand_0 + seq!['_']
                                + o@);
                        }
                    },
                    _ => {
                        return Err(AsmError::CannotComplete(clone_chars(name)));
                    },
                }
            }
            proof {
                assert(tv[i as int] == toks@[i as int]@);
            }
            let op = match get_opcode(&key) {
                Some(op) => op,
                None => {
                    return Err(AsmError::UnknownOpcode(key));
                },
            };
            let j = i + 1 + nr as usize;
            let mut line: Vec<char> = Vec::new();
            push_hex4(&mut line, (addr % 0x10000) as u16);
            line.push('\t');
            push_chars(&mut line, &key);
            if no == 0 {
                line.push('\n');
                let rest = match pass2(toks, j, addr + 1, st) {
                    Ok(p) => p,
                    Err(e) => {
                        return Err(e);
                    },
                };
                let mut bin: Vec<u8> = Vec::new();
                bin.push(op);
                let (mut b2, mut l2) = rest;
                bin.append(&mut b2);
                line.append(&mut l2);
                return Ok((bin, line));
            }
            if j >= toks.len() {
                return Err(AsmError::Syntax(clone_chars(name)));
            }
            let val: u16 = match &toks[j] {
                Token::Data(d) => *d,
                Token::Symbol(s) => match symtab_lookup(st, s) {
                    Some(v) => (v % 0x10000) as u16,
                    None => {
                        return Err(AsmError::SymbolNotFound(clone_chars(s)));
                    },
                },
                _ => {
                    return Err(AsmError::Syntax(clone_chars(name)));
                },
            };
            line.push(' ');
            if no == 2 {
                push_hex4(&mut line, val);
            } else {
                push_hex2(&mut line, (val % 256) as u8);
            }
            line.push('\n');
            let rest = match pass2(toks, j + 1, addr + no as u128 + 1, st) {
                Ok(p) => p,
                Err(e) => {
                    return Err(e);
                },
            };
            let mut bin: Vec<u8> = Vec::new();
            bin.push(op);
            bin.push((val % 256) as u8);
            if no == 2 {
                bin.push(((val as u32 / 256) % 256) as u8);
            }
            let (mut b2, mut l2) = rest;
            bin.append(&mut b2);
            line.append(&mut l2);
            Ok((bin, line))
        },
        Token::Operand(o) => Err(AsmError::Syntax(clone_chars(o))),
        Token::Symbol(s) => Err(AsmError::Syntax(clone_chars(s))),
        Token::Data(d) => {
            let mut t: Vec<char> = Vec::new();
            push_hex4(&mut t, *d);
            proof {
                assert(t@ =~= render_hex4(*d as int));
            }
            Err(AsmError::Syntax(t))
        },
    }
}

/// The binary image and listing of a source text, or the first
/// assembly error.
pub open spec fn spec_assemble(s: Seq<char>) -> Result<(Seq<u8>, Seq<char>), AsmErrorV> {
    let toks = spec_tokenize(s);
    spec_pass2(toks, 0, 0, spec_pass1(toks, 0, 0, Map::<Seq<char>, int>::empty()))
}

/// Assembles 8085 source text into its binary image and its listing.
/// The source is case-insensitive; commas count as whitespace and `;`
/// starts a comment.  Labels are collected in a first pass, so forward
/// references resolve; the listing holds one `0xNNNN\t<key>[ <imm>]`
/// line per emitted instruction.
pub fn assemble(code: &str) -> (r: Result<(Vec<u8>, String), AsmError>)
    ensures
        match spec_assemble(code@) {
            Ok(pair) => r is Ok && r->Ok_0.0@ == pair.0 && r->Ok_0.1@ == pair.1,
            Err(e) => r is Err && r->Err_0@ == e,
        },
{
    let toks = tokenize_words(code);
    let st = pass1(&toks);
    match pass2(&toks, 0, 0, &st) {
        Ok((bin, lchars)) => Ok((bin, chars_to_string(&lchars))),
        Err(e) => Err(e),
    }
}


/// The first position at or past `j` holding a space or newline.
pub open spec fn scan_sep(s: Seq<char>, j: int) -> int
    decreases s.len() - j,
{
    if j < 0 || j >= s.len() || s[j] == ' ' || s[j] == '\n' {
        j
    } else {
        scan_sep(s, j + 1)
    }
}

/// Re-assembles a listing from position `i` on: each line is a
/// four-digit hex address, a tab, an opcode key, and an optional
/// immediate, and contributes the key's opcode byte plus the
/// little-endian immediate bytes.
pub open spec fn spec_parse_listing(s: Seq<char>, i: int) -> Option<Seq<u8>>
    decreases s.len() - i via parse_listing_decreases
{
    if i < 0 || i >= s.len() {
        Some(Seq::empty())
    } else if !(i + 7 <= s.len() && s[i] == '0' && s[i + 1] == 'x' && hex_char_val(s[i + 2]) is Some
        && hex_char_val(s[i + 3]) is Some && hex_char_val(s[i + 4]) is Some && hex_char_val(
        s[i + 5],
    ) is Some && s[i + 6] == '\t') {
        None
    } else {
        let e = scan_sep(s, i + 7);
        let key = s.subrange(i + 7, e);
        if e <= i + 7 {
            None
        } else {
            match spec_opcode(key) {
                None => None,
                Some(op) => {
                    if e >= s.len() {
                        None
                    } else if s[e] == '\n' {
                        match spec_parse_listing(s, e + 1) {
                            None => None,
                            Some(rest) => Some(seq![op] + rest),
                        }
                    } else {
                        // A space, then `0x` and the immediate digits.
                        if !(s.len() - e >= 3 && s[e + 1] == '0' && s[e + 2] == 'x') {
                            None
                        } else {
                            let e2 = scan_sep(s, e + 3);
                            let digits = s.subrange(e + 3, e2);
                            if e2 >= s.len() || s[e2] != '\n' {
                                None
                            } else {
                                match spec_hex_val(digits) {
                                    None => None,
                                    Some(v) => {
                                        if digits.len() == 2 {
                                            match spec_parse_listing(s, e2 + 1) {
                                                None => None,
                                                Some(rest) => Some(
                                                    seq![op, (v % 256) as u8] + rest,
                                                ),
                                            }
                                        } else if digits.len() == 4 {
                                            match spec_parse_listing(s, e2 + 1) {
                                                None => None,
                                                Some(rest) => Some(
                                                    seq![
                                                        op,
                                                        (v % 256) as u8,
                                                        ((v / 256) % 256) as u8,
                                                    ] + rest,
                                                ),
                                            }
                                        } else {
                                            None
                                        }
                                    },
                                }
                            }
                        }
                    }
                },
            }
        }
    }
}

#[via_fn]
proof fn parse_listing_decreases(s: Seq<char>, i: int) {
    if 0 <= i < s.len() {
        lemma_scan_sep_bounds(s, i + 7);
        let e = scan_sep(s, i + 7);
        if i + 7 <= s.len() {
            lemma_scan_sep_bounds(s, e + 3);
        }
    }
}

/// The separator scan never runs past the end and never backwards.
proof fn lemma_scan_sep_bounds(s: Seq<char>, j: int)
    ensures
        scan_sep(s, j) >= j,
        j <= s.len() ==> scan_sep(s, j) <= s.len(),
    decreases s.len() - j,
{
    if 0 <= j < s.len() && !(s[j] == ' ' || s[j] == '\n') {
        lemma_scan_sep_bounds(s, j + 1);
    }
}

/// Scans to the next space or newline.
fn find_sep(s: &Vec<char>, j: usize) -> (e: usize)
    requires
        j <= s@.len(),
    ensures
        e == scan_sep(s@, j as int),
        j <= e <= s@.len(),
{
    proof {
        lemma_scan_sep_bounds(s@, j as int);
    }
    let mut k = j;
    while k < s.len()
        invariant
            j <= k <= s@.len(),
            scan_sep(s@, j as int) == scan_sep(s@, k as int),
        decreases s@.len() - k,
    {
        if s[k] == ' ' || s[k] == '\n' {
            return k;
        }
        k = k + 1;
    }
    k
}

/// Copies `s[from..to]` into a fresh vector.
fn copy_range(s: &Vec<char>, from: usize, to: usize) -> (r: Vec<char>)
    requires
        from <= to <= s@.len(),
    ensures
        r@ == s@.subrange(from as int, to as int),
{
    let mut r: Vec<char> = Vec::new();
    let mut k = from;
    while k < to
        invariant
            from <= k <= to <= s@.len(),
            r@ == s@.subrange(from as int, k as int),
        decreases to - k,
    {
        r.push(s[k]);
        proof {
            assert(r@ =~= s@.subrange(from as int, k + 1));
        }
        k = k + 1;
    }
    proof {
        assert(r@ =~= s@.subrange(from as int, to as int));
    }
    r
}

/// Parses the hex digits of `s[from..to]`, which must number at most
/// sixteen.
fn parse_digits(s: &Vec<char>, from: usize, to: usize) -> (r: Option<u64>)
    requires
        from <= to <= s@.len(),
        to - from <= 16,
    ensures
        match r {
            Some(v) => spec_hex_val(s@.subrange(from as int, to as int)) == Some(v as int),
            None => spec_hex_val(s@.subrange(from as int, to as int)) is None,
        },
{
    let mut acc: u64 = 0;
    let mut k = from;
    while k < to
        invariant
            from <= k <= to <= s@.len(),
            to - from <= 16,
            spec_hex_val(s@.subrange(from as int, k as int)) == Some(acc as int),
        decreases to - k,
    {
        match hex_val(s[k]) {
            Some(d) => {
                proof {
                    assert(s@.subrange(from as int, k + 1).drop_last() =~= s@.subrange(
                        from as int,
                        k as int,
                    ));
                    lemma_hex_val_bound(s@.subrange(from as int, k as int));
                    lemma_pow16_le_15((k - from) as nat);
                }
                acc = acc * 16 + d as u64;
            },
            None => {
                proof {
                    lemma_hex_prefix_none(s@.subrange(from as int, to as int), (k - from) as int);
                }
                return None;
            },
        }
        k = k + 1;
    }
    Some(acc)
}

/// Re-assembles a listing body from position `i` on.
fn parse_listing_from(s: &Vec<char>, i: usize) -> (r: Option<Vec<u8>>)
    requires
        i <= s@.len(),
    ensures
        match r {
            Some(b) => spec_parse_listing(s@, i as int) == Some(b@),
            None => spec_parse_listing(s@, i as int) is None,
        },
    decreases s@.len() - i,
{
    if i >= s.len() {
        let b: Vec<u8> = Vec::new();
        proof {
            assert(b@ =~= Seq::<u8>::empty());
        }
        return Some(b);
    }
    if !(s.len() - i >= 7 && s[i] == '0' && s[i + 1] == 'x' && hex_val(s[i + 2]).is_some()
        && hex_val(s[i + 3]).is_some() && hex_val(s[i + 4]).is_some() && hex_val(
        s[i + 5],
    ).is_some() && s[i + 6] == '\t') {
        return None;
    }
    let e = find_sep(s, i + 7);
    if e <= i + 7 {
        return None;
    }
    let key = copy_range(s, i + 7, e);
    let op = match get_opcode(&key) {
        Some(op) => op,
        None => {
            return None;
        },
    };
    if e >= s.len() {
        return None;
    }
    if s[e] == '\n' {
        let rest = match parse_listing_from(s, e + 1) {
            Some(rest) => rest,
            None => {
                return None;
            },
        };
        let mut b: Vec<u8> = Vec::new();
        b.push(op);
        let mut r2 = rest;
        b.append(&mut r2);
        return Some(b);
    }
    if !(s.len() - e >= 3 && s[e + 1] == '0' && s[e + 2] == 'x') {
        return None;
    }
    let e2 = find_sep(s, e + 3);
    if e2 >= s.len() {
        return None;
    }
    if s[e2] != '\n' {
        return None;
    }
    if e2 - (e + 3) > 16 {
        // Neither two nor four digits: the modeled parse rejects the
        // line whatever the digits' value is.
        return None;
    }
    let v = match parse_digits(s, e + 3, e2) {
        Some(v) => v,
        None => {
            return None;
        },
    };
    let ndigits = e2 - (e + 3);
    if ndigits != 2 && ndigits != 4 {
        return None;
    }
    let rest = match parse_listing_from(s, e2 + 1) {
        Some(rest) => rest,
        None => {
            return None;
        },
    };
    let mut b: Vec<u8> = Vec::new();
    b.push(op);
    b.push((v % 256) as u8);
    if ndigits == 4 {
        b.push(((v / 256) % 256) as u8);
    }
    let mut r2 = rest;
    b.append(&mut r2);
    Some(b)
}

/// Re-assembles a listing emitted by [`assemble`]: looks each opcode
/// key up in the table and re-emits its byte and the little-endian
/// immediate bytes, ignoring the address column.
pub fn parse_listing(listing: &str) -> (r: Option<Vec<u8>>)
    ensures
        match r {
            Some(b) => spec_parse_listing(listing@, 0) == Some(b@),
            None => spec_parse_listing(listing@, 0) is None,
        },
{
    let n = listing.unicode_len();
    let mut chars: Vec<char> = Vec::new();
    let mut i: usize = 0;
    while i < n
        invariant
            n == listing@.len(),
            i <= n,
            chars@ == listing@.take(i as int),
        decreases n - i,
    {
        chars.push(listing.get_char(i));
        proof {
            assert(chars@ =~= listing@.take(i + 1));
        }
        i = i + 1;
    }
    proof {
        assert(chars@ =~= listing@);
    }
    parse_listing_from(&chars, 0)
}


/// No space or newline occurs in `w`.
pub open spec fn no_sep(w: Seq<char>) -> bool {
    forall|k: int| 0 <= k < w.len() ==> w[k] != ' ' && w[k] != '\n'
}

#[verifier::spinoff_prover]
proof fn lemma_mnemonic_no_sep_1(w: Seq<char>)
    ensures
        (w == "aci"@ || w == "adc"@ || w == "add"@ || w == "adi"@ || w == "ana"@ || w == "ani"@ || w == "call"@ || w == "cc"@ || w == "cm"@ || w == "cma"@ || w == "cmc"@ || w == "cmp"@ || w == "cnc"@ || w == "cnz"@ || w == "cp"@ || w == "cpe"@ || w == "cpi"@ || w == "cpo"@ || w == "cz"@ || w == "daa"@ || w == "dad"@ || w == "dcr"@ || w == "dcx"@ || w == "di"@ || w == "ei"@ || w == "hlt"@ || w == "in"@ || w == "inr"@ || w == "inx"@ || w == "jc"@ || w == "jm"@ || w == "jmp"@ || w == "jnc"@ || w == "jnz"@ || w == "jp"@ || w == "jpe"@ || w == "jpo"@ || w == "jz"@ || w == "lda"@ || w == "ldax"@) ==> no_sep(w) && w.len() > 0,
{
    reveal_strlit("aci");
    reveal_strlit("adc");
    reveal_strlit("add");
    reveal_strlit("adi");
    reveal_strlit("ana");
    reveal_strlit("ani");
    reveal_strlit("call");
    reveal_strlit("cc");
    reveal_strlit("cm");
    reveal_strlit("cma");
    reveal_strlit("cmc");
    reveal_strlit("cmp");
    reveal_strlit("cnc");
    reveal_strlit("cnz");
    reveal_strlit("cp");
    reveal_strlit("cpe");
    reveal_strlit("cpi");
    reveal_strlit("cpo");
    reveal_strlit("cz");
    reveal_strlit("daa");
    reveal_strlit("dad");
    reveal_strlit("dcr");
    reveal_strlit("dcx");
    reveal_strlit("di");
    reveal_strlit("ei");
    reveal_strlit("hlt");
    reveal_strlit("in");
    reveal_strlit("inr");
    reveal_strlit("inx");
    reveal_strlit("jc");
    reveal_strlit("jm");
    reveal_strlit("jmp");
    reveal_strlit("jnc");
    reveal_strlit("jnz");
    reveal_strlit("jp");
    reveal_strlit("jpe");
    reveal_strlit("jpo");
    reveal_strlit("jz");
    reveal_strlit("lda");
    reveal_strlit("ldax");
}

#[verifier::spinoff_prover]
proof fn lemma_mnemonic_no_sep_2(w: Seq<char>)
    ensures
        (w == "lhld"@ || w == "lxi"@ || w == "mov"@ || w == "mvi"@ || w == "nop"@ || w == "ora"@ || w == "ori"@ || w == "out"@ || w == "pchl"@ || w == "pop"@ || w == "push"@ || w == "ral"@ || w == "rar"@ || w == "rc"@ || w == "ret"@ || w == "rim"@ || w == "rlc"@ || w == "rm"@ || w == "rnc"@ || w == "rnz"@ || w == "rp"@ || w == "rpe"@ || w == "rpo"@ || w == "rrc"@ || w == "rst"@ || w == "rz"@ || w == "sbb"@ || w == "sbi"@ || w == "shld"@ || w == "sim"@ || w == "sphl"@ || w == "sta"@ || w == "stax"@ || w == "stc"@ || w == "sub"@ || w == "sui"@ || w == "xchg"@ || w == "xra"@ || w == "xri"@ || w == "xthl"@) ==> no_sep(w) && w.len() > 0,
{
    reveal_strlit("lhld");
    reveal_strlit("lxi");
    reveal_strlit("mov");
    reveal_strlit("mvi");
    reveal_strlit("nop");
    reveal_strlit("ora");
    reveal_strlit("ori");
    reveal_strlit("out");
    reveal_strlit("pchl");
    reveal_strlit("pop");
    reveal_strlit("push");
    reveal_strlit("ral");
    reveal_strlit("rar");
    reveal_strlit("rc");
    reveal_strlit("ret");
    reveal_strlit("rim");
    reveal_strlit("rlc");
    reveal_strlit("rm");
    reveal_strlit("rnc");
    reveal_strlit("rnz");
    reveal_strlit("rp");
    reveal_strlit("rpe");
    reveal_strlit("rpo");
    reveal_strlit("rrc");
    reveal_strlit("rst");
    reveal_strlit("rz");
    reveal_strlit("sbb");
    reveal_strlit("sbi");
    reveal_strlit("shld");
    reveal_strlit("sim");
    reveal_strlit("sphl");
    reveal_strlit("sta");
    reveal_strlit("stax");
    reveal_strlit("stc");
    reveal_strlit("sub");
    reveal_strlit("sui");
    reveal_strlit("xchg");
    reveal_strlit("xra");
    reveal_strlit("xri");
    reveal_strlit("xthl");
}

/// Every mnemonic keyword is nonempty and free of separators.
proof fn lemma_mnemonic_no_sep(w: Seq<char>)
    requires
        spec_mnemonic(w) is Some,
    ensures
        no_sep(w),
        w.len() > 0,
{
    lemma_mnemonic_no_sep_1(w);
    lemma_mnemonic_no_sep_2(w);
}

#[verifier::spinoff_prover]
/// Every operand keyword is nonempty and free of separators.
proof fn lemma_operand_no_sep(w: Seq<char>)
    requires
        spec_operand(w),
    ensures
        no_sep(w),
        w.len() > 0,
{
    reveal_strlit("a");
    reveal_strlit("b");
    reveal_strlit("c");
    reveal_strlit("d");
    reveal_strlit("e");
    reveal_strlit("h");
    reveal_strlit("l");
    reveal_strlit("m");
    reveal_strlit("ab");
    reveal_strlit("bc");
    reveal_strlit("de");
    reveal_strlit("hl");
    reveal_strlit("psw");
    reveal_strlit("sp");
    reveal_strlit("0");
    reveal_strlit("1");
    reveal_strlit("2");
    reveal_strlit("3");
    reveal_strlit("4");
    reveal_strlit("5");
    reveal_strlit("6");
    reveal_strlit("7");
}


/// The separator scan stops exactly after `n` separator-free
/// characters followed by a separator or the end.
proof fn lemma_scan_sep_stops(s: Seq<char>, j: int, n: int)
    requires
        0 <= j,
        0 <= n,
        j + n <= s.len(),
        forall|k: int| j <= k < j + n ==> s[k] != ' ' && s[k] != '\n',
        j + n == s.len() || s[j + n] == ' ' || s[j + n] == '\n',
    ensures
        scan_sep(s, j) == j + n,
    decreases n,
{
    if n > 0 {
        lemma_scan_sep_stops(s, j + 1, n - 1);
    }
}

/// Hexadecimal digit characters are digits, not separators.
proof fn lemma_hex_digit_char_facts(d: int)
    ensures
        hex_char_val(hex_digit_char(d % 16)) == Some(d % 16),
        hex_digit_char(d % 16) != ' ',
        hex_digit_char(d % 16) != '\n',
{
}

/// The four digits of a rendered 16-bit value read back to the value.
proof fn lemma_render4_val(v: int)
    requires
        0 <= v < 0x10000,
    ensures
        spec_hex_val(render_hex4(v).subrange(2, 6)) == Some(v),
{
    let d = render_hex4(v).subrange(2, 6);
    assert(d.len() == 4);
    assert(d[0] == hex_digit_char((v / 4096) % 16));
    assert(d[1] == hex_digit_char((v / 256) % 16));
    assert(d[2] == hex_digit_char((v / 16) % 16));
    assert(d[3] == hex_digit_char(v % 16));
    lemma_hex_digit_char_facts(v / 4096);
    lemma_hex_digit_char_facts(v / 256);
    lemma_hex_digit_char_facts(v / 16);
    lemma_hex_digit_char_facts(v);
    let x3 = (v / 4096) % 16;
    let x2 = (v / 256) % 16;
    let x1 = (v / 16) % 16;
    let x0 = v % 16;
    let d3 = d.drop_last();
    let d2 = d3.drop_last();
    let d1 = d2.drop_last();
    let d0 = d1.drop_last();
    assert(d0 =~= Seq::<char>::empty());
    assert(spec_hex_val(d0) == Some(0int));
    assert(d1.last() == hex_digit_char(x3) && d1.len() == 1);
    assert(spec_hex_val(d1) == Some(x3));
    assert(d2.last() == hex_digit_char(x2) && d2.len() == 2);
    assert(spec_hex_val(d2) == Some(x3 * 16 + x2));
    assert(d3.last() == hex_digit_char(x1) && d3.len() == 3);
    assert(spec_hex_val(d3) == Some((x3 * 16 + x2) * 16 + x1));
    assert(d.last() == hex_digit_char(x0));
    assert(spec_hex_val(d) == Some(((x3 * 16 + x2) * 16 + x1) * 16 + x0));
    assert(((x3 * 16 + x2) * 16 + x1) * 16 + x0 == v) by {
        lemma_digits_recompose(v);
    }
}

/// A 16-bit value is its four hex digits recomposed.
proof fn lemma_digits_recompose(v: int)
    requires
        0 <= v < 0x10000,
    ensures
        ((((v / 4096) % 16) * 16 + (v / 256) % 16) * 16 + (v / 16) % 16) * 16 + v % 16 == v,
{
    let w = v as u32;
    assert(((((w / 4096) % 16) * 16 + (w / 256) % 16) * 16 + (w / 16) % 16) * 16 + w % 16 == w)
        by (bit_vector)
        requires
            w < 0x10000,
    ;
}

/// The two digits of a rendered byte read back to the byte.
proof fn lemma_render2_val(v: int)
    requires
        0 <= v < 0x100,
    ensures
        spec_hex_val(render_hex2(v).subrange(2, 4)) == Some(v),
{
    let d = render_hex2(v).subrange(2, 4);
    assert(d.len() == 2);
    assert(d[0] == hex_digit_char((v / 16) % 16));
    assert(d[1] == hex_digit_char(v % 16));
    lemma_hex_digit_char_facts(v / 16);
    lemma_hex_digit_char_facts(v);
    let e1 = d.drop_last();
    let e0 = e1.drop_last();
    assert(e0 =~= Seq::<char>::empty());
    assert(spec_hex_val(e0) == Some(0int));
    assert(e1.last() == hex_digit_char((v / 16) % 16) && e1.len() == 1);
    assert(spec_hex_val(e1) == Some((v / 16) % 16));
    assert(d.last() == hex_digit_char(v % 16));
    assert(spec_hex_val(d) == Some(((v / 16) % 16) * 16 + v % 16));
    assert(((v / 16) % 16) * 16 + v % 16 == v) by {
        let w = v as u32;
        assert(((w / 16) % 16) * 16 + w % 16 == w) by (bit_vector)
            requires
                w < 0x100,
        ;
    }
}

/// Scanning past a fixed prefix scans the suffix.
proof fn lemma_scan_sep_shift(s1: Seq<char>, s2: Seq<char>, j: int)
    requires
        0 <= j <= s2.len(),
    ensures
        scan_sep(s1 + s2, s1.len() + j) == s1.len() + scan_sep(s2, j),
    decreases s2.len() - j,
{
    if j < s2.len() && !(s2[j] == ' ' || s2[j] == '\n') {
        lemma_scan_sep_shift(s1, s2, j + 1);
    }
}

/// Parsing from a position past a fixed prefix parses the suffix.
#[verifier::spinoff_prover]
proof fn lemma_parse_shift(s1: Seq<char>, s2: Seq<char>, k: int)
    requires
        0 <= k <= s2.len(),
    ensures
        spec_parse_listing(s1 + s2, s1.len() + k) == spec_parse_listing(s2, k),
    decreases s2.len() - k,
{
    let s = s1 + s2;
    let n1 = s1.len() as int;
    let i = n1 + k;
    if k >= s2.len() {
    } else if !(i + 7 <= s.len() && s[i] == '0' && s[i + 1] == 'x' && hex_char_val(s[i + 2])
        is Some && hex_char_val(s[i + 3]) is Some && hex_char_val(s[i + 4]) is Some
        && hex_char_val(s[i + 5]) is Some && s[i + 6] == '\t') {
    } else {
        lemma_scan_sep_shift(s1, s2, k + 7);
        let e2s = scan_sep(s2, k + 7);
        let e = scan_sep(s, i + 7);
        lemma_scan_sep_bounds(s2, k + 7);
        assert(s.subrange(i + 7, e) =~= s2.subrange(k + 7, e2s));
        if e <= i + 7 {
        } else {
            match spec_opcode(s2.subrange(k + 7, e2s)) {
                None => {},
                Some(_op) => {
                    if e >= s.len() {
                    } else if s[e] == '\n' {
                        lemma_parse_shift(s1, s2, e2s + 1);
                    } else {
                        if !(e + 3 <= s.len() && s[e + 1] == '0' && s[e + 2] == 'x') {
                        } else {
                            lemma_scan_sep_shift(s1, s2, e2s + 3);
                            let f2s = scan_sep(s2, e2s + 3);
                            let f = scan_sep(s, e + 3);
                            lemma_scan_sep_bounds(s2, e2s + 3);
                            assert(s.subrange(e + 3, f) =~= s2.subrange(e2s + 3, f2s));
                            if f >= s.len() || s[f] != '\n' {
                            } else {
                                lemma_parse_shift(s1, s2, f2s + 1);
                            }
                        }
                    }
                },
            }
        }
    }
}

/// A listing line with no immediate, followed by any correctly
/// parsing text, parses to its key's opcode byte and the rest.
#[verifier::spinoff_prover]
proof fn lemma_parse_line_plain(a: int, key: Seq<char>, op: u8, rest: Seq<char>, restb: Seq<u8>)
    requires
        0 <= a < 0x10000,
        no_sep(key),
        key.len() > 0,
        spec_opcode(key) == Some(op),
        spec_parse_listing(rest, 0) == Some(restb),
    ensures
        spec_parse_listing(render_hex4(a) + seq!['\t'] + key + seq!['\n'] + rest, 0) == Some(
            seq![op] + restb,
        ),
{
    let line = render_hex4(a) + seq!['\t'] + key + seq!['\n'];
    let listing = line + rest;
    assert(listing =~= render_hex4(a) + seq!['\t'] + key + seq!['\n'] + rest);
    lemma_render4_val(a);
    lemma_hex_digit_char_facts(a / 4096);
    lemma_hex_digit_char_facts(a / 256);
    lemma_hex_digit_char_facts(a / 16);
    lemma_hex_digit_char_facts(a);
    let e: int = 7 + key.len() as int;
    lemma_scan_sep_stops(listing, 7, key.len() as int);
    assert(listing.subrange(7, e) =~= key);
    lemma_parse_shift(line, rest, 0);
    assert(spec_parse_listing(listing, e + 1) == Some(restb));
}

/// A listing line with a two-byte immediate, followed by any
/// correctly parsing text, parses to its key's opcode byte, the
/// little-endian immediate bytes, and the rest.
#[verifier::spinoff_prover]
proof fn lemma_parse_line_imm2(
    a: int,
    key: Seq<char>,
    op: u8,
    v: int,
    rest: Seq<char>,
    restb: Seq<u8>,
)
    requires
        0 <= a < 0x10000,
        no_sep(key),
        key.len() > 0,
        spec_opcode(key) == Some(op),
        0 <= v < 0x10000,
        spec_parse_listing(rest, 0) == Some(restb),
    ensures
        spec_parse_listing(
            render_hex4(a) + seq!['\t'] + key + seq![' '] + render_hex4(v) + seq!['\n'] + rest,
            0,
        ) == Some(seq![op, (v % 256) as u8, ((v / 256) % 256) as u8] + restb),
{
    lemma_render4_val(a);
    lemma_hex_digit_char_facts(a / 4096);
    lemma_hex_digit_char_facts(a / 256);
    lemma_hex_digit_char_facts(a / 16);
    lemma_hex_digit_char_facts(a);
    let e: int = 7 + key.len() as int;
    let line = render_hex4(a) + seq!['\t'] + key + seq![' '] + render_hex4(v) + seq!['\n'];
    let listing = line + rest;
    assert(listing =~= render_hex4(a) + seq!['\t'] + key + seq![' '] + render_hex4(v)
        + seq!['\n'] + rest);
    lemma_scan_sep_stops(listing, 7, key.len() as int);
    assert(listing.subrange(7, e) =~= key);
    lemma_render4_val(v);
    lemma_hex_digit_char_facts(v / 4096);
    lemma_hex_digit_char_facts(v / 256);
    lemma_hex_digit_char_facts(v / 16);
    lemma_hex_digit_char_facts(v);
    lemma_scan_sep_stops(listing, e + 3, 4);
    assert(listing.subrange(e + 3, e + 7) =~= render_hex4(v).subrange(2, 6));
    assert(listing[e + 7] == '\n');
    lemma_parse_shift(line, rest, 0);
    assert(spec_parse_listing(listing, e + 8) == Some(restb));
}

/// A listing line with a one-byte immediate, followed by any
/// correctly parsing text, parses to its key's opcode byte, the
/// immediate byte, and the rest.
#[verifier::spinoff_prover]
proof fn lemma_parse_line_imm1(
    a: int,
    key: Seq<char>,
    op: u8,
    v: int,
    rest: Seq<char>,
    restb: Seq<u8>,
)
    requires
        0 <= a < 0x10000,
        no_sep(key),
        key.len() > 0,
        spec_opcode(key) == Some(op),
        0 <= v < 0x10000,
        spec_parse_listing(rest, 0) == Some(restb),
    ensures
        spec_parse_listing(
            render_hex4(a) + seq!['\t'] + key + seq![' '] + render_hex2(v % 256) + seq!['\n']
                + rest,
            0,
        ) == Some(seq![op, (v % 256) as u8] + restb),
{
    lemma_render4_val(a);
    lemma_hex_digit_char_facts(a / 4096);
    lemma_hex_digit_char_facts(a / 256);
    lemma_hex_digit_char_facts(a / 16);
    lemma_hex_digit_char_facts(a);
    let e: int = 7 + key.len() as int;
    let line = render_hex4(a) + seq!['\t'] + key + seq![' '] + render_hex2(v % 256)
        + seq!['\n'];
    let listing = line + rest;
    assert(listing =~= render_hex4(a) + seq!['\t'] + key + seq![' '] + render_hex2(v % 256)
        + seq!['\n'] + rest);
    lemma_scan_sep_stops(listing, 7, key.len() as int);
    assert(listing.subrange(7, e) =~= key);
    lemma_render2_val(v % 256);
    lemma_hex_digit_char_facts((v % 256) / 16);
    lemma_hex_digit_char_facts(v % 256);
    lemma_scan_sep_stops(listing, e + 3, 2);
    assert(listing.subrange(e + 3, e + 5) =~= render_hex2(v % 256).subrange(2, 4));
    assert(listing[e + 5] == '\n');
    lemma_parse_shift(line, rest, 0);
    assert(spec_parse_listing(listing, e + 6) == Some(restb));
}

/// Well-formed tokens, as the lexer produces them: every mnemonic
/// carries its own table counts and every operand is an operand
/// keyword.
pub open spec fn wf_tokens(toks: Seq<TokenV>) -> bool {
    forall|j: int|
        0 <= j < toks.len() ==> ((#[trigger] toks[j]) is Mnemonic ==> spec_mnemonic(
            toks[j]->Mnemonic_0,
        ) == Some((toks[j]->Mnemonic_1, toks[j]->Mnemonic_2))) && (toks[j] is Operand
            ==> spec_operand(toks[j]->Operand_0))
}

/// Assembler/re-assembler round trip: the listing that pass two emits
/// for a well-formed token stream re-assembles, line by line, to
/// exactly the binary pass two emitted.
#[verifier::spinoff_prover]
#[verifier::rlimit(100)]
pub proof fn lemma_listing_round_trip(
    toks: Seq<TokenV>,
    i: int,
    addr: int,
    m: Map<Seq<char>, int>,
    bin: Seq<u8>,
    listing: Seq<char>,
)
    requires
        wf_tokens(toks),
        0 <= i,
        spec_pass2(toks, i, addr, m) == Ok::<(Seq<u8>, Seq<char>), AsmErrorV>((bin, listing)),
    ensures
        spec_parse_listing(listing, 0) == Some(bin),
    decreases toks.len() - i,
{
    if i >= toks.len() {
        assert(listing =~= Seq::<char>::empty());
        assert(bin =~= Seq::<u8>::empty());
    } else {
        match toks[i] {
            TokenV::Label(_) => {
                lemma_listing_round_trip(toks, i + 1, addr, m, bin, listing);
            },
            TokenV::Mnemonic(name, nr, no) => {
                lemma_mnemonic_no_sep(name);
                let key: Seq<char> = if nr == 0 {
                    name
                } else if nr == 1 {
                    name + seq!['_'] + toks[i + 1]->Operand_0
                } else {
                    name + seq!['_'] + toks[i + 1]->Operand_0 + seq!['_']
                        + toks[i + 2]->Operand_0
                };
                assert(no_sep(key) && key.len() > 0) by {
                    if nr == 1 {
                        lemma_operand_no_sep(toks[i + 1]->Operand_0);
                    }
                    if nr == 2 {
                        lemma_operand_no_sep(toks[i + 1]->Operand_0);
                        lemma_operand_no_sep(toks[i + 2]->Operand_0);
                    }
                }
                let a = addr % 0x10000;
                let op = spec_opcode(key)->Some_0;
                if no == 0 {
                    let next = i + 1 + nr;
                    let rest = spec_pass2(toks, next, addr + 1, m);
                    lemma_listing_round_trip(
                        toks,
                        next,
                        addr + 1,
                        m,
                        rest->Ok_0.0,
                        rest->Ok_0.1,
                    );
                    lemma_parse_line_plain(a, key, op, rest->Ok_0.1, rest->Ok_0.0);
                    assert(listing =~= render_hex4(a) + seq!['\t'] + key + seq!['\n']
                        + rest->Ok_0.1);
                } else {
                    let j = i + 1 + nr;
                    let v: int = match toks[j] {
                        TokenV::Data(d) => d as int,
                        TokenV::Symbol(s) => m[s] % 0x10000,
                        _ => 0,
                    };
                    let next = j + 1;
                    let rest = spec_pass2(toks, next, addr + no + 1, m);
                    lemma_listing_round_trip(
                        toks,
                        next,
                        addr + no + 1,
                        m,
                        rest->Ok_0.0,
                        rest->Ok_0.1,
                    );
                    if no == 2 {
                        lemma_parse_line_imm2(a, key, op, v, rest->Ok_0.1, rest->Ok_0.0);
                        assert(listing =~= render_hex4(a) + seq!['\t'] + key + seq![' ']
                            + render_hex4(v) + seq!['\n'] + rest->Ok_0.1);
                    } else {
                        lemma_parse_line_imm1(a, key, op, v, rest->Ok_0.1, rest->Ok_0.0);
                        assert(listing =~= render_hex4(a) + seq!['\t'] + key + seq![' ']
                            + render_hex2(v % 256) + seq!['\n'] + rest->Ok_0.1);
                    }
                }
            },
            _ => {},
        }
    }
}


/// The lexer only builds well-formed tokens: a mnemonic always
/// carries its own table counts and an operand is always a keyword.
proof fn lemma_lex_wf(s: Seq<char>, i: int, acc: Seq<char>, comment: bool, toks: Seq<TokenV>)
    requires
        wf_tokens(toks),
    ensures
        wf_tokens(spec_lex(s, i, acc, comment, toks)),
    decreases s.len() - i,
{
    if i < 0 || i >= s.len() {
        if acc.len() > 0 {
            assert(wf_tokens(toks.push(spec_token(acc))));
        }
    } else {
        let c = lower(s[i]);
        if comment {
            if c == '\n' {
                lemma_lex_wf(s, i + 1, acc, false, toks);
            } else {
                lemma_lex_wf(s, i + 1, acc, true, toks);
            }
        } else if c == '\n' || is_ws(c) || c == ';' {
            let toks2 = if acc.len() > 0 {
                toks.push(spec_token(acc))
            } else {
                toks
            };
            assert(wf_tokens(toks2));
            lemma_lex_wf(s, i + 1, Seq::empty(), c == ';', toks2);
        } else {
            lemma_lex_wf(s, i + 1, acc.push(c), false, toks);
        }
    }
}

/// Assembler/re-assembler round trip, end to end: re-assembling the
/// listing that [`assemble`] emits for any source text yields exactly
/// the binary it emitted.
pub proof fn lemma_assemble_round_trip(code: Seq<char>, bin: Seq<u8>, listing: Seq<char>)
    requires
        spec_assemble(code) == Ok::<(Seq<u8>, Seq<char>), AsmErrorV>((bin, listing)),
    ensures
        spec_parse_listing(listing, 0) == Some(bin),
{
    let toks = spec_tokenize(code);
    assert(wf_tokens(Seq::<TokenV>::empty()));
    lemma_lex_wf(code, 0, Seq::empty(), false, Seq::empty());
    lemma_listing_round_trip(toks, 0, 0, spec_pass1(toks, 0, 0, Map::empty()), bin, listing);
}

} // verus!
