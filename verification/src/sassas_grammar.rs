//! Operand encoders, control codes, and instruction-line parsing of the
//! SASS grammar.
#![allow(non_snake_case)]
use vstd::prelude::*;

use crate::base_grammar::shape_map;
use crate::flags::{build_flags, flags_view, spec_build_flags, FlagSpec, FlagVal};
use crate::grammar::{
    entry_rule_texts, entry_shape, grammar_rule_texts, grammar_rules, grammar_shape, GrammarEltBase,
    InstrClass,
};
use crate::mut_map::{MutMap, MutStrMap};
pub use crate::registers::{get_addr_vec_registers, get_reg_num, get_vec_registers};
use crate::text::{
    dec_chars, dec_string, hex_chars, hex_string, pad_left, parse_u64, parse_u64_chars, push_chars,
    push_str, hex_digit, law_parse_dec_string,
    chars_eq_str, chars_of, spec_parse_u64, split_on, split_str, string_from_chars,
};
use crate::utils::{
    first_group, first_group_of, re_capture_names, re_matches, regex_captures, regex_group_names,
    regex_is_match, regex_match, regex_matches, regex_replace, regex_replace_all, regex_strip,
    re_compile, regex_valid, spec_regex_match, spec_regex_matches, spec_regex_strip, Re,
};

verus! {

/// A register or predicate number in text: `P3`, `PT`.
pub const PRED_NAME_RE: &'static str = r"^P(\d+|T)$";

/// A general register in text: `R12`, `RZ`.
pub const REG_NAME_RE: &'static str = r"^R(\d+|Z)$";

/// A hexadecimal literal at the start of the text.
pub const HEX_LITERAL_RE: &'static str = r"^0x[0-9a-zA-Z]+";

/// An infinity in a float operand.
pub const INF_RE: &'static str = r"INF";

/// A leading minus sign.
pub const NEG_RE: &'static str = r"^\-";

/// Every minus sign.
pub const MINUS_RE: &'static str = r"-";

/// A scaled expression immediate: `4x<expr>`.
pub const EXPR_IMM_RE: &'static str = r"^(\d+)[xX]<([^>]+)>";

/// The value of `s` read by `hex`, which reads decimal text as
/// `u64::from_str` does.
pub open spec fn spec_hex(s: Seq<char>) -> u64 {
    spec_parse_u64(s).unwrap()
}

/// The number in `s` (decimal digits, optionally after `+`).
pub fn hex(s: &str) -> (r: u64)
    requires
        spec_parse_u64(s@) is Some,
    ensures
        r == spec_hex(s@),
{
    parse_u64(s).unwrap()
}

pub open spec fn spec_getP(val: Seq<char>, pos: usize) -> Option<u64> {
    match first_group(spec_regex_matches(PRED_NAME_RE@, val), 1) {
        None => None,
        Some(p) => if p == seq!['T'] {
            Some(7u64 << pos)
        } else {
            match spec_parse_u64(p) {
                Some(v) => Some(v << pos),
                None => None,
            }
        },
    }
}

/// The bits of predicate `val` (`P<n>` or `PT`, which is 7) at bit `pos`;
/// `None` for a bad predicate name.
pub fn getP(val: &str, pos: usize) -> (r: Option<u64>)
    requires
        pos < 64,
    ensures
        r == spec_getP(val@, pos),
{
    let m = regex_matches(PRED_NAME_RE, val);
    match first_group_of(&m, 1) {
        None => None,
        Some(p) => {
            if p.len() == 1 && p[0] == 'T' {
                assert(p@ =~= seq!['T']);
                Some(7u64 << pos)
            } else {
                assert(p@ != seq!['T']);
                match parse_u64_chars(&p) {
                    Some(v) => Some(v << pos),
                    None => None,
                }
            }
        },
    }
}

pub open spec fn spec_getR(val: Seq<char>, pos: u32) -> Option<u64> {
    match first_group(spec_regex_matches(REG_NAME_RE@, val), 1) {
        None => None,
        Some(t) => match spec_parse_u64(t) {
            None => None,
            Some(v) => if v >= 255 {
                None
            } else if v == 90 {
                Some(0xffu64 << pos)
            } else {
                Some(v << pos)
            },
        },
    }
}

/// The bits of register `val` (`R<n>`, n below 255) at bit `pos`; the
/// register number that is the character code of `Z` (90) stands for the
/// zero register 0xff. `None` for a bad register name.
pub fn getR(val: &str, pos: u32) -> (r: Option<u64>)
    requires
        pos < 64,
    ensures
        r == spec_getR(val@, pos),
{
    let m = regex_matches(REG_NAME_RE, val);
    match first_group_of(&m, 1) {
        None => None,
        Some(t) => match parse_u64_chars(&t) {
            None => None,
            Some(v) => {
                if v >= 255 {
                    None
                } else if v == 90 {
                    Some(0xffu64 << pos)
                } else {
                    Some(v << pos)
                }
            },
        },
    }
}

/// A register `R<n>`, whose number the register pattern reads as the
/// decimal text of `n`, is encoded whole at bit `pos`: `n` shifted to `pos`,
/// which shifts back to `n`. `R90` (the character code of `Z`) stands for
/// the zero register 0xff, and numbers from 255 on are refused.
pub proof fn law_getR_register_number(val: Seq<char>, n: u64, pos: u32)
    requires
        pos < 56,
    ensures
        first_group(spec_regex_matches(REG_NAME_RE@, val), 1) == Some(dec_string(n as nat)) ==> {
            &&& n < 255 && n != 90 ==> spec_getR(val, pos) == Some(n << pos) && (n << pos) >> pos == n
            &&& n == 90 ==> spec_getR(val, pos) == Some(0xffu64 << pos)
            &&& n >= 255 ==> spec_getR(val, pos) is None
        },
{
    law_parse_dec_string(n);
    if n < 255 {
        assert((n << pos) >> pos == n) by (bit_vector)
            requires
                n < 255,
                pos < 56,
        ;
    }
}

/// A predicate `P<n>`, whose number the predicate pattern reads as the
/// decimal text of `n` (a predicate register below 8), is encoded whole at
/// bit `pos`: `n` shifted to `pos`, which shifts back to `n`; `PT` is 7.
pub proof fn law_getP_predicate_number(val: Seq<char>, n: u64, pos: usize)
    requires
        pos < 60,
    ensures
        first_group(spec_regex_matches(PRED_NAME_RE@, val), 1) == Some(dec_string(n as nat)) && n < 8
            ==> spec_getP(val, pos) == Some(n << pos) && (n << pos) >> pos == n,
        first_group(spec_regex_matches(PRED_NAME_RE@, val), 1) == Some(seq!['T']) ==> spec_getP(val, pos)
            == Some(7u64 << pos),
{
    law_parse_dec_string(n);
    if n < 8 {
        assert(dec_string(n as nat) != seq!['T']) by {
            assert(dec_string(n as nat) =~= seq![hex_digit(n as nat)]);
        }
        assert((n << pos) >> pos == n) by (bit_vector)
            requires
                n < 8,
                pos < 60,
        ;
    }
}

/// A constant-bank byte offset that is a multiple of 4 below 0x20000 is
/// encoded as its word offset at bit 20: the code holds `v / 4` from bit 20
/// on and nothing below.
pub proof fn law_getC_word_offset(v: u64)
    requires
        v % 4 == 0,
        v < 0x20000,
    ensures
        spec_getC(v) == (v / 4) << 20u64,
        spec_getC(v) >> 20u64 == v / 4,
        spec_getC(v) & 0xfffffu64 == 0,
{
    assert(((v >> 2u64) & 0x7fffu64) << 20u64 == (v / 4) << 20u64
        && (((v >> 2u64) & 0x7fffu64) << 20u64) >> 20u64 == v / 4
        && (((v >> 2u64) & 0x7fffu64) << 20u64) & 0xfffffu64 == 0) by (bit_vector)
        requires
            v % 4 == 0,
            v < 0x20000,
    ;
}

pub open spec fn spec_getC(v: u64) -> u64 {
    ((v >> 2u64) & 0x7fffu64) << 20u64
}

/// A constant-bank offset: the word offset (`val` / 4, 15 bits) at bit 20.
pub fn getC(val: &str) -> (r: u64)
    requires
        spec_parse_u64(val@) is Some,
    ensures
        r == spec_getC(spec_hex(val@)),
{
    ((hex(val) >> 2u64) & 0x7fffu64) << 20u64
}

pub open spec fn spec_getF(val: Seq<char>, pos: u32, itype: char, trunc: u32) -> Option<u64> {
    match spec_regex_match(HEX_LITERAL_RE@, val) {
        None => None,
        Some(true) => match spec_parse_u64(val) {
            Some(v) => Some(v << pos),
            None => None,
        },
        Some(false) => match spec_regex_match(INF_RE@, val) {
            None => None,
            Some(true) => Some(
                (if trunc == 0 {
                    0x7f800000u64
                } else if itype == 'f' {
                    0x7f800u64
                } else {
                    0x7ff00u64
                }) << pos,
            ),
            Some(false) => match spec_parse_u64(val) {
                None => None,
                Some(v) => Some(
                    (if trunc != 0 {
                        (v >> trunc) & 0x7ffffu64
                    } else {
                        v
                    }) << pos,
                ),
            },
        },
    }
}

/// A float operand at bit `pos`: a literal number (shifted right by `trunc`
/// and kept to 19 bits when `trunc` is not 0), or the bits of infinity for
/// the float type `itype`. `None` where the number cannot be read.
pub fn getF(val: &str, pos: u32, itype: char, trunc: u32) -> (r: Option<u64>)
    requires
        pos < 64,
        trunc < 64,
    ensures
        r == spec_getF(val@, pos, itype, trunc),
{
    let v = match regex_match(HEX_LITERAL_RE, val) {
        None => return None,
        Some(true) => match parse_u64(val) {
            Some(v) => v,
            None => return None,
        },
        Some(false) => match regex_match(INF_RE, val) {
            None => return None,
            Some(true) => {
                if trunc == 0 {
                    0x7f800000u64
                } else if itype == 'f' {
                    0x7f800u64
                } else {
                    0x7ff00u64
                }
            },
            Some(false) => match parse_u64(val) {
                None => return None,
                Some(v) => {
                    if trunc != 0 {
                        (v >> trunc) & 0x7ffffu64
                    } else {
                        v
                    }
                },
            },
        },
    };
    Some(v << pos)
}

pub open spec fn spec_getI_value(val: Seq<char>, neg: bool, pos: u32, mask: i64) -> Option<u64> {
    match spec_regex_match(EXPR_IMM_RE@, val) {
        None => None,
        Some(true) => None,
        Some(false) => match spec_regex_match(HEX_LITERAL_RE@, val) {
            None => None,
            Some(false) => None,
            Some(true) => match spec_parse_u64(val) {
                None => None,
                Some(u) => {
                    let v = u as i64;
                    if neg {
                        if v == i64::MIN {
                            None
                        } else {
                            Some((((-v) as i64 & mask) << pos) as u64)
                        }
                    } else if v & mask != v {
                        None
                    } else {
                        Some((v << pos) as u64)
                    }
                },
            },
        },
    }
}

pub open spec fn spec_getI(orig: Seq<char>, pos: u32, mask: i64) -> Option<u64> {
    match spec_regex_match(NEG_RE@, orig) {
        None => None,
        Some(true) => match spec_regex_strip(MINUS_RE@, orig) {
            None => None,
            Some(val) => spec_getI_value(val, true, pos, mask),
        },
        Some(false) => spec_getI_value(orig, false, pos, mask),
    }
}

fn getI_value(val: &str, neg: bool, pos: u32, mask: i64) -> (r: Option<u64>)
    requires
        pos < 64,
    ensures
        r == spec_getI_value(val@, neg, pos, mask),
{
    match regex_match(EXPR_IMM_RE, val) {
        None => return None,
        Some(true) => return None,
        Some(false) => {},
    }
    match regex_match(HEX_LITERAL_RE, val) {
        None => return None,
        Some(false) => return None,
        Some(true) => {},
    }
    let u = match parse_u64(val) {
        None => return None,
        Some(u) => u,
    };
    let v = u as i64;
    if neg {
        if v == i64::MIN {
            None
        } else {
            Some((((-v) & mask) << pos) as u64)
        }
    } else if v & mask != v {
        None
    } else {
        Some((v << pos) as u64)
    }
}

/// An integer immediate at bit `pos`, kept to `mask` (a negative value is
/// masked as two's complement; a positive one must fit the mask). `None`
/// for an immediate that cannot be encoded.
pub fn getI(orig: &str, pos: u32, mask: i64) -> (r: Option<u64>)
    requires
        pos < 64,
    ensures
        r == spec_getI(orig@, pos, mask),
{
    match regex_match(NEG_RE, orig) {
        None => None,
        Some(true) => match regex_strip(MINUS_RE, orig) {
            None => None,
            Some(val) => getI_value(val.as_str(), true, pos, mask),
        },
        Some(false) => getI_value(orig, false, pos, mask),
    }
}

/// How an operand field's text becomes instruction bits.
#[derive(Clone, Copy, PartialEq, Eq, Debug)]
pub enum OperandEnc {
    /// A predicate at the given bit (`getP`).
    Pred(usize),
    /// A register at the given bit (`getR`).
    Reg(u32),
    /// A constant-bank offset (`getC`).
    ConstOffset,
    /// A number shifted to the given bit.
    Shifted(u32),
    /// A float at a bit, for a float type, truncated by some bits (`getF`).
    Float(u32, char, u32),
    /// An integer immediate at a bit, within a mask (`getI`).
    Imm(u32, i64),
}

/// Whether every shift amount of `e` is below 64.
pub open spec fn operand_enc_ok(e: OperandEnc) -> bool {
    match e {
        OperandEnc::Pred(p) => p < 64,
        OperandEnc::Reg(p) => p < 64,
        OperandEnc::ConstOffset => true,
        OperandEnc::Shifted(p) => p < 64,
        OperandEnc::Float(p, _, t) => p < 64 && t < 64,
        OperandEnc::Imm(p, _) => p < 64,
    }
}

/// The bits that encoding `e` gives the operand text `s`; `None` where the
/// text cannot be encoded.
pub open spec fn spec_encode_operand(e: OperandEnc, s: Seq<char>) -> Option<u64> {
    match e {
        OperandEnc::Pred(p) => spec_getP(s, p),
        OperandEnc::Reg(p) => spec_getR(s, p),
        OperandEnc::ConstOffset => match spec_parse_u64(s) {
            Some(v) => Some(spec_getC(v)),
            None => None,
        },
        OperandEnc::Shifted(p) => match spec_parse_u64(s) {
            Some(v) => Some(v << p),
            None => None,
        },
        OperandEnc::Float(p, t, tr) => spec_getF(s, p, t, tr),
        OperandEnc::Imm(p, m) => spec_getI(s, p, m),
    }
}

/// Encodes the operand text `s` as `e` says.
pub fn encode_operand(e: OperandEnc, s: &str) -> (r: Option<u64>)
    requires
        operand_enc_ok(e),
    ensures
        r == spec_encode_operand(e, s@),
{
    match e {
        OperandEnc::Pred(p) => getP(s, p),
        OperandEnc::Reg(p) => getR(s, p),
        OperandEnc::ConstOffset => match parse_u64(s) {
            Some(_) => Some(getC(s)),
            None => None,
        },
        OperandEnc::Shifted(p) => match parse_u64(s) {
            Some(v) => Some(v << p),
            None => None,
        },
        OperandEnc::Float(p, t, tr) => getF(s, p, t, tr),
        OperandEnc::Imm(p, m) => getI(s, p, m),
    }
}

/// The operand fields of the grammar and how each is encoded.
pub open spec fn operand_table() -> Map<Seq<char>, OperandEnc> {
    Map::<Seq<char>, OperandEnc>::empty()
        .insert("p0"@, OperandEnc::Pred(0))
        .insert("p3"@, OperandEnc::Pred(3))
        .insert("p12"@, OperandEnc::Pred(12))
        .insert("p29"@, OperandEnc::Pred(29))
        .insert("p39"@, OperandEnc::Pred(39))
        .insert("p45"@, OperandEnc::Pred(45))
        .insert("p48"@, OperandEnc::Pred(48))
        .insert("p58"@, OperandEnc::Pred(58))
        .insert("r0"@, OperandEnc::Reg(0))
        .insert("r8"@, OperandEnc::Reg(8))
        .insert("r20"@, OperandEnc::Reg(20))
        .insert("r28"@, OperandEnc::Reg(28))
        .insert("r39s20"@, OperandEnc::Reg(39))
        .insert("r39"@, OperandEnc::Reg(39))
        .insert("r39a"@, OperandEnc::Reg(39))
        .insert("c20"@, OperandEnc::ConstOffset)
        .insert("c39"@, OperandEnc::ConstOffset)
        .insert("c34"@, OperandEnc::Shifted(34))
        .insert("c36"@, OperandEnc::Shifted(36))
        .insert("f20w32"@, OperandEnc::Float(20, 'f', 0))
        .insert("f20"@, OperandEnc::Float(20, 'f', 12))
        .insert("d20"@, OperandEnc::Float(20, 'd', 44))
        .insert("i8w4"@, OperandEnc::Imm(8, 0xf))
        .insert("i20"@, OperandEnc::Imm(20, 0x7_ffff))
        .insert("i20w6"@, OperandEnc::Imm(20, 0x3f))
        .insert("i20w7"@, OperandEnc::Imm(20, 0x7f))
        .insert("i20w8"@, OperandEnc::Imm(20, 0xff))
        .insert("i20w12"@, OperandEnc::Imm(20, 0xfff))
        .insert("i20w24"@, OperandEnc::Imm(20, 0xff_ffff))
        .insert("i20w32"@, OperandEnc::Imm(20, 0xffff_ffff))
        .insert("i31w4"@, OperandEnc::Imm(31, 0xf))
        .insert("i34w13"@, OperandEnc::Imm(34, 0x1fff))
        .insert("i36w20"@, OperandEnc::Imm(36, 0xf_ffff))
        .insert("i39w8"@, OperandEnc::Imm(39, 0xff))
        .insert("i28w8"@, OperandEnc::Imm(28, 0xff))
        .insert("i28w20"@, OperandEnc::Imm(28, 0xf_ffff))
        .insert("i48w20"@, OperandEnc::Imm(48, 0xff))
        .insert("i51w5"@, OperandEnc::Imm(51, 0x1f))
        .insert("i53w5"@, OperandEnc::Imm(53, 0x1f))
}

/// The operand fields of the grammar and how each is encoded.
pub fn build_operands() -> (operands: MutStrMap<OperandEnc>)
    ensures
        operands@ == operand_table(),
        forall|k: Seq<char>| #[trigger] operands@.contains_key(k) ==> operand_enc_ok(operands@[k]),
{
    let mut operands: MutStrMap<OperandEnc> = MutStrMap::new();
    operands.insert("p0", OperandEnc::Pred(0));
    operands.insert("p3", OperandEnc::Pred(3));
    operands.insert("p12", OperandEnc::Pred(12));
    operands.insert("p29", OperandEnc::Pred(29));
    operands.insert("p39", OperandEnc::Pred(39));
    operands.insert("p45", OperandEnc::Pred(45));
    operands.insert("p48", OperandEnc::Pred(48));
    operands.insert("p58", OperandEnc::Pred(58));
    operands.insert("r0", OperandEnc::Reg(0));
    operands.insert("r8", OperandEnc::Reg(8));
    operands.insert("r20", OperandEnc::Reg(20));
    operands.insert("r28", OperandEnc::Reg(28));
    operands.insert("r39s20", OperandEnc::Reg(39));
    operands.insert("r39", OperandEnc::Reg(39));
    operands.insert("r39a", OperandEnc::Reg(39));
    operands.insert("c20", OperandEnc::ConstOffset);
    operands.insert("c39", OperandEnc::ConstOffset);
    operands.insert("c34", OperandEnc::Shifted(34));
    operands.insert("c36", OperandEnc::Shifted(36));
    operands.insert("f20w32", OperandEnc::Float(20, 'f', 0));
    operands.insert("f20", OperandEnc::Float(20, 'f', 12));
    operands.insert("d20", OperandEnc::Float(20, 'd', 44));
    operands.insert("i8w4", OperandEnc::Imm(8, 0xf));
    operands.insert("i20", OperandEnc::Imm(20, 0x7_ffff));
    operands.insert("i20w6", OperandEnc::Imm(20, 0x3f));
    operands.insert("i20w7", OperandEnc::Imm(20, 0x7f));
    operands.insert("i20w8", OperandEnc::Imm(20, 0xff));
    operands.insert("i20w12", OperandEnc::Imm(20, 0xfff));
    operands.insert("i20w24", OperandEnc::Imm(20, 0xff_ffff));
    operands.insert("i20w32", OperandEnc::Imm(20, 0xffff_ffff));
    operands.insert("i31w4", OperandEnc::Imm(31, 0xf));
    operands.insert("i34w13", OperandEnc::Imm(34, 0x1fff));
    operands.insert("i36w20", OperandEnc::Imm(36, 0xf_ffff));
    operands.insert("i39w8", OperandEnc::Imm(39, 0xff));
    operands.insert("i28w8", OperandEnc::Imm(28, 0xff));
    operands.insert("i28w20", OperandEnc::Imm(28, 0xf_ffff));
    operands.insert("i48w20", OperandEnc::Imm(48, 0xff));
    operands.insert("i51w5", OperandEnc::Imm(51, 0x1f));
    operands.insert("i53w5", OperandEnc::Imm(53, 0x1f));
    operands
}

/// The text of a dependency-barrier number: `-` for none (7), else the
/// barrier number counted from 1.
pub open spec fn barrier_text(b: u64) -> Seq<char> {
    if b == 7 {
        seq!['-']
    } else {
        dec_string((b + 1) as nat)
    }
}

/// The text `print_ctrl` gives for a control code: wait mask (two hex
/// digits, `--` for none), read barrier, write barrier, yield (`-` when the
/// yield bit is set, else `Y`) and stall count (hex).
pub open spec fn spec_print_ctrl(code: u64) -> Seq<char> {
    let stall = code & 0xfu64;
    let yieldf = (code & 0x10u64) >> 4u64;
    let wrtdb = (code & 0xe0u64) >> 5u64;
    let readb = (code & 0x700u64) >> 8u64;
    let watdb = (code & 0x1f800u64) >> 11u64;
    (if watdb != 0 {
        pad_left(hex_string(watdb as nat), 2, ' ')
    } else {
        seq!['-', '-']
    }) + barrier_text(readb) + barrier_text(wrtdb) + (if yieldf != 0 {
        seq!['-']
    } else {
        seq!['Y']
    }) + hex_string(stall as nat)
}

fn push_barrier(v: &mut Vec<char>, b: u64)
    requires
        b <= 7,
    ensures
        final(v)@ == old(v)@ + barrier_text(b),
{
    if b == 7 {
        v.push('-');
        assert(final(v)@ =~= old(v)@ + seq!['-']) by {}
    } else {
        let d = dec_chars(b + 1);
        push_chars(v, &d);
    }
}

/// The control code `code` as text (see `spec_print_ctrl`).
pub fn print_ctrl(code: u64) -> (r: String)
    ensures
        r@ == spec_print_ctrl(code),
{
    let stall = code & 0xfu64;
    let yieldf = (code & 0x10u64) >> 4u64;
    let wrtdb = (code & 0xe0u64) >> 5u64;
    let readb = (code & 0x700u64) >> 8u64;
    let watdb = (code & 0x1f800u64) >> 11u64;
    assert(wrtdb <= 7 && readb <= 7) by (bit_vector)
        requires
            wrtdb == (code & 0xe0u64) >> 5u64,
            readb == (code & 0x700u64) >> 8u64,
    ;
    let mut v: Vec<char> = Vec::new();
    if watdb != 0 {
        let w = hex_chars(watdb, 2, ' ');
        push_chars(&mut v, &w);
    } else {
        v.push('-');
        v.push('-');
    }
    assert(v@ =~= (if watdb != 0 {
        pad_left(hex_string(watdb as nat), 2, ' ')
    } else {
        seq!['-', '-']
    }));
    push_barrier(&mut v, readb);
    push_barrier(&mut v, wrtdb);
    let ghost before = v@;
    if yieldf != 0 {
        v.push('-');
        assert(v@ =~= before + seq!['-']);
    } else {
        v.push('Y');
        assert(v@ =~= before + seq!['Y']);
    }
    let s = hex_chars(stall, 0, ' ');
    assert(pad_left(hex_string(stall as nat), 0, ' ') == hex_string(stall as nat));
    push_chars(&mut v, &s);
    string_from_chars(&v)
}

/// The text of a dependency barrier field (3 bits): `-` for 7, else the
/// barrier counted from 1, a single digit.
pub open spec fn barrier_char(b: u64) -> char {
    if b == 7 {
        '-'
    } else {
        hex_digit((b + 1) as nat)
    }
}

/// A control code packed from its fields (wait mask `w` of 6 bits, read
/// barrier `rb` and write barrier `wb` of 3 bits, yield bit `y`, stall `st`
/// of 4 bits) prints as the wait mask (two hex characters, `--` for none),
/// then the read barrier, then the write barrier, then `-` for a set yield
/// bit (else `Y`), then the stall as one hex digit.
pub proof fn law_print_ctrl_fields(w: u64, rb: u64, wb: u64, y: u64, st: u64)
    requires
        w < 64,
        rb < 8,
        wb < 8,
        y < 2,
        st < 16,
    ensures
        spec_print_ctrl((w << 11u64) | (rb << 8u64) | (wb << 5u64) | (y << 4u64) | st) == (if w != 0 {
            pad_left(hex_string(w as nat), 2, ' ')
        } else {
            seq!['-', '-']
        }) + seq![
            barrier_char(rb),
            barrier_char(wb),
            if y != 0 {
                '-'
            } else {
                'Y'
            },
            hex_digit(st as nat),
        ],
{
    let code = (w << 11u64) | (rb << 8u64) | (wb << 5u64) | (y << 4u64) | st;
    assert(
        (code & 0x1f800u64) >> 11u64 == w
        && (code & 0x700u64) >> 8u64 == rb
        && (code & 0xe0u64) >> 5u64 == wb
        && (code & 0x10u64) >> 4u64 == y
        && code & 0xfu64 == st
    ) by (bit_vector)
        requires
            w < 64,
            rb < 8,
            wb < 8,
            y < 2,
            st < 16,
            code == (w << 11u64) | (rb << 8u64) | (wb << 5u64) | (y << 4u64) | st,
    ;
    assert(barrier_text(rb) =~= seq![barrier_char(rb)]) by {
        if rb != 7 {
            assert(dec_string((rb + 1) as nat) =~= seq![hex_digit((rb + 1) as nat)]);
        }
    }
    assert(barrier_text(wb) =~= seq![barrier_char(wb)]) by {
        if wb != 7 {
            assert(dec_string((wb + 1) as nat) =~= seq![hex_digit((wb + 1) as nat)]);
        }
    }
    assert(hex_string(st as nat) =~= seq![hex_digit(st as nat)]);
    let wt = if w != 0 {
        pad_left(hex_string(w as nat), 2, ' ')
    } else {
        seq!['-', '-']
    };
    let yt = if y != 0 {
        seq!['-']
    } else {
        seq!['Y']
    };
    assert(wt + seq![barrier_char(rb)] + seq![barrier_char(wb)] + yt + seq![hex_digit(st as nat)] =~= wt
        + seq![barrier_char(rb), barrier_char(wb), if y != 0 { '-' } else { 'Y' }, hex_digit(st as nat)]);
}

/// Whether `read_ctrl` can read `ctrl`: five `:`-separated fields (more are
/// ignored): a wait mask (`--` or a number up to 0x3f), a read and a write
/// barrier (`-` or a number from 1), a yield field and a stall number.
pub open spec fn read_ctrl_ok(ctrl: Seq<char>) -> bool {
    let c = split_on(ctrl, ':');
    &&& c.len() >= 5
    &&& c[0] == seq!['-', '-'] || (spec_parse_u64(c[0]) is Some && spec_hex(c[0]) & 0x3fu64 == spec_hex(
        c[0],
    ))
    &&& c[1] == seq!['-'] || (spec_parse_u64(c[1]) is Some && spec_hex(c[1]) >= 1)
    &&& c[2] == seq!['-'] || (spec_parse_u64(c[2]) is Some && spec_hex(c[2]) >= 1)
    &&& spec_parse_u64(c[4]) is Some
}

/// The wait mask field read from text.
pub open spec fn ctrl_wait(t: Seq<char>) -> u64 {
    if t == seq!['-', '-'] {
        0
    } else {
        spec_hex(t)
    }
}

/// A barrier field read from text: 7 for `-`, else the number less one.
pub open spec fn ctrl_barrier(t: Seq<char>) -> u64 {
    if t == seq!['-'] {
        7
    } else {
        (spec_hex(t) - 1) as u64
    }
}

/// The yield field read from text: 0 for `y` or `Y`, else 1.
pub open spec fn ctrl_yield(t: Seq<char>) -> u64 {
    if t == seq!['y'] || t == seq!['Y'] {
        0
    } else {
        1
    }
}

/// The control code `read_ctrl` packs from `ctrl`.
pub open spec fn spec_read_ctrl(ctrl: Seq<char>) -> u64 {
    let c = split_on(ctrl, ':');
    (ctrl_wait(c[0]) << 11u64) | (ctrl_barrier(c[1]) << 8u64) | (ctrl_barrier(c[2]) << 5u64) | (
    ctrl_yield(c[3]) << 4u64) | spec_hex(c[4])
}

/// Reads a control code written as `wait:read:write:yield:stall`.
pub fn read_ctrl(ctrl: &str, context: &str) -> (r: u64)
    requires
        read_ctrl_ok(ctrl@),
    ensures
        r == spec_read_ctrl(ctrl@),
{
    let c = split_str(ctrl, ':');
    proof {
        assert(c.deep_view()[0] == c@[0]@);
        assert(c.deep_view()[1] == c@[1]@);
        assert(c.deep_view()[2] == c@[2]@);
        assert(c.deep_view()[3] == c@[3]@);
        assert(c.deep_view()[4] == c@[4]@);
    }
    let watdb: u64 = if c[0].len() == 2 && c[0][0] == '-' && c[0][1] == '-' {
        assert(c@[0]@ =~= seq!['-', '-']);
        0
    } else {
        assert(c@[0]@ != seq!['-', '-']);
        parse_u64_chars(&c[0]).unwrap()
    };
    let readb: u64 = if c[1].len() == 1 && c[1][0] == '-' {
        assert(c@[1]@ =~= seq!['-']);
        7
    } else {
        assert(c@[1]@ != seq!['-']);
        parse_u64_chars(&c[1]).unwrap() - 1
    };
    let wrtdb: u64 = if c[2].len() == 1 && c[2][0] == '-' {
        assert(c@[2]@ =~= seq!['-']);
        7
    } else {
        assert(c@[2]@ != seq!['-']);
        parse_u64_chars(&c[2]).unwrap() - 1
    };
    let yieldf: u64 = if c[3].len() == 1 && (c[3][0] == 'y' || c[3][0] == 'Y') {
        assert(c@[3]@ =~= seq!['y'] || c@[3]@ =~= seq!['Y']);
        0
    } else {
        assert(c@[3]@ != seq!['y'] && c@[3]@ != seq!['Y']);
        1
    };
    let stall = parse_u64_chars(&c[4]).unwrap();
    (watdb << 11u64) | (readb << 8u64) | (wrtdb << 5u64) | (yieldf << 4u64) | stall
}

/// `read_ctrl` where `ctrl` can be read, else `None`.
pub fn try_read_ctrl(ctrl: &str, context: &str) -> (r: Option<u64>)
    ensures
        r == (if read_ctrl_ok(ctrl@) {
            Some(spec_read_ctrl(ctrl@))
        } else {
            None
        }),
{
    let c = split_str(ctrl, ':');
    if c.len() < 5 {
        return None;
    }
    proof {
        assert(c.deep_view()[0] == c@[0]@);
        assert(c.deep_view()[1] == c@[1]@);
        assert(c.deep_view()[2] == c@[2]@);
        assert(c.deep_view()[4] == c@[4]@);
    }
    if !(c[0].len() == 2 && c[0][0] == '-' && c[0][1] == '-') {
        assert(c@[0]@ != seq!['-', '-']);
        match parse_u64_chars(&c[0]) {
            None => return None,
            Some(w) => {
                if w & 0x3fu64 != w {
                    return None;
                }
            },
        }
    } else {
        assert(c@[0]@ =~= seq!['-', '-']);
    }
    if !(c[1].len() == 1 && c[1][0] == '-') {
        assert(c@[1]@ != seq!['-']);
        match parse_u64_chars(&c[1]) {
            None => return None,
            Some(b) => {
                if b < 1 {
                    return None;
                }
            },
        }
    } else {
        assert(c@[1]@ =~= seq!['-']);
    }
    if !(c[2].len() == 1 && c[2][0] == '-') {
        assert(c@[2]@ != seq!['-']);
        match parse_u64_chars(&c[2]) {
            None => return None,
            Some(b) => {
                if b < 1 {
                    return None;
                }
            },
        }
    } else {
        assert(c@[2]@ =~= seq!['-']);
    }
    if parse_u64_chars(&c[4]).is_none() {
        return None;
    }
    Some(read_ctrl(ctrl, context))
}

/// Packing a control code and taking its fields apart again gives back the
/// fields, when each is within its width: wait mask (6 bits), read and
/// write barriers (3 bits), yield (1 bit) and stall (4 bits).
pub proof fn law_read_ctrl_fields(ctrl: Seq<char>)
    requires
        read_ctrl_ok(ctrl),
        ctrl_barrier(split_on(ctrl, ':')[1]) <= 7,
        ctrl_barrier(split_on(ctrl, ':')[2]) <= 7,
        spec_hex(split_on(ctrl, ':')[4]) <= 15,
    ensures
        (spec_read_ctrl(ctrl) & 0x1f800u64) >> 11u64 == ctrl_wait(split_on(ctrl, ':')[0]),
        (spec_read_ctrl(ctrl) & 0x700u64) >> 8u64 == ctrl_barrier(split_on(ctrl, ':')[1]),
        (spec_read_ctrl(ctrl) & 0xe0u64) >> 5u64 == ctrl_barrier(split_on(ctrl, ':')[2]),
        (spec_read_ctrl(ctrl) & 0x10u64) >> 4u64 == ctrl_yield(split_on(ctrl, ':')[3]),
        spec_read_ctrl(ctrl) & 0xfu64 == spec_hex(split_on(ctrl, ':')[4]),
{
    let c = split_on(ctrl, ':');
    let w = ctrl_wait(c[0]);
    let rb = ctrl_barrier(c[1]);
    let wb = ctrl_barrier(c[2]);
    let y = ctrl_yield(c[3]);
    let s = spec_hex(c[4]);
    assert(0u64 & 0x3fu64 == 0u64) by (bit_vector);
    assert(w & 0x3fu64 == w);
    assert(y <= 1);
    let r = (w << 11u64) | (rb << 8u64) | (wb << 5u64) | (y << 4u64) | s;
    assert(
        (r & 0x1f800u64) >> 11u64 == w
        && (r & 0x700u64) >> 8u64 == rb
        && (r & 0xe0u64) >> 5u64 == wb
        && (r & 0x10u64) >> 4u64 == y
        && r & 0xfu64 == s
    ) by (bit_vector)
        requires
            w & 0x3fu64 == w,
            rb <= 7,
            wb <= 7,
            y <= 1,
            s <= 15,
            r == (w << 11u64) | (rb << 8u64) | (wb << 5u64) | (y << 4u64) | s,
    ;
}

/// An instruction line of cuobjdump output that carries a control word.
pub const SASS_CTRL_LINE_RE: &'static str = r"^\s+\/\* (0x[0-9a-f]+)";

/// The control word on a line: `None` where `process_sass_ctrl_line`
/// cannot go on (a bad pattern, a group that took no part, a number it
/// cannot read), `Some(None)` for a line without one.
pub open spec fn sass_ctrl_word(line: Seq<char>) -> Option<Option<u64>> {
    match spec_regex_matches(SASS_CTRL_LINE_RE@, line) {
        None => None,
        Some(ms) => if ms.len() == 0 {
            Some(None)
        } else {
            match first_group(spec_regex_matches(SASS_CTRL_LINE_RE@, line), 1) {
                None => None,
                Some(t) => match spec_parse_u64(t) {
                    None => None,
                    Some(code) => Some(Some(code)),
                },
            }
        },
    }
}

/// The three 17-bit control codes packed in a control word.
pub open spec fn ctrl_fields(code: u64) -> Seq<u64> {
    seq![
        (code & 0x000000000001ffffu64) >> 0u64,
        (code & 0x0000003fffe00000u64) >> 21u64,
        (code & 0x07fffc0000000000u64) >> 42u64,
    ]
}

/// The three 4-bit reuse masks packed in a control word.
pub open spec fn reuse_fields(code: u64) -> Seq<u64> {
    seq![
        (code & 0x00000000001e0000u64) >> 17u64,
        (code & 0x000003c000000000u64) >> 38u64,
        (code & 0x7800000000000000u64) >> 59u64,
    ]
}

/// The control codes and reuse masks of a control word.
pub fn split_ctrl_word(code: u64) -> (r: (Vec<u64>, Vec<u64>))
    ensures
        r.0@ == ctrl_fields(code),
        r.1@ == reuse_fields(code),
{
    let mut c: Vec<u64> = Vec::new();
    c.push((code & 0x000000000001ffffu64) >> 0u64);
    c.push((code & 0x0000003fffe00000u64) >> 21u64);
    c.push((code & 0x07fffc0000000000u64) >> 42u64);
    let mut u: Vec<u64> = Vec::new();
    u.push((code & 0x00000000001e0000u64) >> 17u64);
    u.push((code & 0x000003c000000000u64) >> 38u64);
    u.push((code & 0x7800000000000000u64) >> 59u64);
    assert(c@ =~= ctrl_fields(code));
    assert(u@ =~= reuse_fields(code));
    (c, u)
}

/// The six fields of a control word hold all its bits but the top one.
pub proof fn law_ctrl_word_fields_cover(code: u64)
    ensures
        ctrl_fields(code)[0] | (ctrl_fields(code)[1] << 21u64) | (ctrl_fields(code)[2] << 42u64) | (
        reuse_fields(code)[0] << 17u64) | (reuse_fields(code)[1] << 38u64) | (reuse_fields(code)[2]
            << 59u64) == code & 0x7fffffffffffffffu64,
{
    let c0 = (code & 0x000000000001ffffu64) >> 0u64;
    let c1 = (code & 0x0000003fffe00000u64) >> 21u64;
    let c2 = (code & 0x07fffc0000000000u64) >> 42u64;
    let r0 = (code & 0x00000000001e0000u64) >> 17u64;
    let r1 = (code & 0x000003c000000000u64) >> 38u64;
    let r2 = (code & 0x7800000000000000u64) >> 59u64;
    assert(c0 | (c1 << 21u64) | (c2 << 42u64) | (r0 << 17u64) | (r1 << 38u64) | (r2 << 59u64) == code
        & 0x7fffffffffffffffu64) by (bit_vector)
        requires
            c0 == (code & 0x000000000001ffffu64) >> 0u64,
            c1 == (code & 0x0000003fffe00000u64) >> 21u64,
            c2 == (code & 0x07fffc0000000000u64) >> 42u64,
            r0 == (code & 0x00000000001e0000u64) >> 17u64,
            r1 == (code & 0x000003c000000000u64) >> 38u64,
            r2 == (code & 0x7800000000000000u64) >> 59u64,
    ;
}

/// Reads the control word of a cuobjdump instruction line and appends its
/// three control codes to `ctrl` and its three reuse masks to `ruse`.
/// `Some(false)` for a line without a control word (nothing appended);
/// `None` where the word cannot be read (nothing appended).
pub fn process_sass_ctrl_line(line: &str, ctrl: &mut Vec<u64>, ruse: &mut Vec<u64>) -> (r: Option<
    bool,
>)
    ensures
        match sass_ctrl_word(line@) {
            None => r is None && final(ctrl)@ == old(ctrl)@ && final(ruse)@ == old(ruse)@,
            Some(None) => r == Some(false) && final(ctrl)@ == old(ctrl)@ && final(ruse)@ == old(
                ruse,
            )@,
            Some(Some(code)) => r == Some(true) && final(ctrl)@ == old(ctrl)@ + ctrl_fields(code)
                && final(ruse)@ == old(ruse)@ + reuse_fields(code),
        },
{
    let m = regex_matches(SASS_CTRL_LINE_RE, line);
    let n = match &m {
        None => return None,
        Some(ms) => ms.len(),
    };
    if n == 0 {
        return Some(false);
    }
    let t = match first_group_of(&m, 1) {
        None => return None,
        Some(t) => t,
    };
    let code = match parse_u64_chars(&t) {
        None => return None,
        Some(code) => code,
    };
    let (c, u) = split_ctrl_word(code);
    push_u64s(ctrl, &c);
    push_u64s(ruse, &u);
    Some(true)
}

fn push_u64s(v: &mut Vec<u64>, s: &Vec<u64>)
    ensures
        final(v)@ == old(v)@ + s@,
{
    let mut i: usize = 0;
    let ghost start = v@;
    while i < s.len()
        invariant
            i <= s@.len(),
            v@ == start + s@.take(i as int),
        decreases s@.len() - i,
    {
        v.push(s[i]);
        i = i + 1;
        assert(v@ =~= start + s@.take(i as int));
    }
    assert(s@.take(s@.len() as int) =~= s@);
}

/// The captures of one match added to `m` by group name, for the named
/// groups that took part.
pub open spec fn group_texts(
    names: Seq<Option<Seq<char>>>,
    caps: Seq<Option<Seq<char>>>,
    m: Map<Seq<char>, Seq<char>>,
) -> Map<Seq<char>, Seq<char>>
    decreases names.len(),
{
    if names.len() == 0 {
        m
    } else {
        let before = group_texts(names.drop_last(), caps, m);
        let i = names.len() - 1;
        if i < caps.len() && names[i] is Some && caps[i] is Some {
            before.insert(names[i]->0, caps[i]->0)
        } else {
            before
        }
    }
}

/// The captures of all matches added to `m` by group name, later matches
/// overriding earlier ones.
pub open spec fn matches_texts(
    names: Seq<Option<Seq<char>>>,
    ms: Seq<Seq<Option<Seq<char>>>>,
    m: Map<Seq<char>, Seq<char>>,
) -> Map<Seq<char>, Seq<char>>
    decreases ms.len(),
{
    if ms.len() == 0 {
        m
    } else {
        group_texts(names, ms.last(), matches_texts(names, ms.drop_last(), m))
    }
}

/// The texts of a map of strings.
pub open spec fn texts(m: Map<Seq<char>, String>) -> Map<Seq<char>, Seq<char>> {
    m.map_values(|s: String| s@)
}

fn add_group_texts(
    names: &Vec<Option<String>>,
    caps: &Vec<Option<String>>,
    cap_data: &mut MutStrMap<String>,
)
    ensures
        texts(final(cap_data)@) == group_texts(names.deep_view(), caps.deep_view(), texts(
            old(cap_data)@,
        )),
{
    let mut i: usize = 0;
    let ghost start = texts(cap_data@);
    while i < names.len()
        invariant
            i <= names@.len(),
            texts(cap_data@) == group_texts(names.deep_view().take(i as int), caps.deep_view(), start),
        decreases names@.len() - i,
    {
        proof {
            assert(names.deep_view().take(i + 1).drop_last() =~= names.deep_view().take(i as int));
        }
        if i < caps.len() {
            match (&names[i], &caps[i]) {
                (Some(n), Some(t)) => {
                    let ghost before = cap_data@;
                    cap_data.insert(n.as_str(), t.clone());
                    proof {
                        assert(texts(cap_data@) =~= texts(before).insert(n@, t@));
                    }
                },
                _ => {},
            }
        }
        i = i + 1;
    }
    proof {
        assert(names.deep_view().take(names@.len() as int) =~= names.deep_view());
    }
}

/// Matches `rule` against `inst`; where it matches, records in `cap_data`
/// the text of every named group that took part (by group name, later
/// matches overriding earlier ones).
pub fn parse_instruct(inst: &str, rule: &Re, cap_data: &mut MutStrMap<String>) -> (r: bool)
    ensures
        r == regex_is_match(rule.pattern(), inst@),
        texts(final(cap_data)@) == (if r {
            matches_texts(
                regex_group_names(rule.pattern()),
                regex_captures(rule.pattern(), inst@),
                texts(old(cap_data)@),
            )
        } else {
            texts(old(cap_data)@)
        }),
{
    let matches = re_matches(rule, inst);
    let names = re_capture_names(rule);
    if matches.len() == 0 {
        return false;
    }
    let mut k: usize = 0;
    let ghost start = texts(cap_data@);
    while k < matches.len()
        invariant
            k <= matches@.len(),
            names.deep_view() == regex_group_names(rule.pattern()),
            texts(cap_data@) == matches_texts(names.deep_view(), matches.deep_view().take(k as int), start),
        decreases matches@.len() - k,
    {
        proof {
            assert(matches.deep_view().take(k + 1).drop_last() =~= matches.deep_view().take(k as int));
            assert(matches.deep_view().take(k + 1).last() == matches@[k as int].deep_view());
        }
        add_group_texts(&names, &matches[k], cap_data);
        k = k + 1;
    }
    proof {
        assert(matches.deep_view().take(matches@.len() as int) =~= matches.deep_view());
    }
    true
}

/// Matches `rule` against `line`, recording the named groups that took
/// part, as `parse_instruct` does.
fn re_matches_by_name(line: &str, rule: &Re, cap_data: &mut MutStrMap<String>) -> (r: bool)
    ensures
        r == regex_is_match(rule.pattern(), line@),
        texts(final(cap_data)@) == (if r {
            matches_texts(
                regex_group_names(rule.pattern()),
                regex_captures(rule.pattern(), line@),
                texts(old(cap_data)@),
            )
        } else {
            texts(old(cap_data)@)
        }),
{
    parse_instruct(line, rule, cap_data)
}

/// `inst` with tabs made spaces and runs of white space made one space.
pub fn normalize_spacing(inst: &str) -> (r: Option<String>)
    ensures
        match r {
            Some(s) => regex_valid(r"\t"@) && regex_valid(r"\s{2,}"@) && s@ == regex_replace_all(
                r"\s{2,}"@,
                regex_replace_all(r"\t"@, inst@, " "@),
                " "@,
            ),
            None => !regex_valid(r"\t"@) || !regex_valid(r"\s{2,}"@),
        },
{
    let s = match regex_replace(r"\t", " ", inst) {
        Some(s) => s,
        None => return None,
    };
    regex_replace(r"\s{2,}", " ", s.as_str())
}

/// An encoding of an opcode with its rule compiled.
pub struct GrammarElt {
    pub itype: InstrClass,
    pub code: u64,
    pub rule: Re,
}

/// `g` is `b` with its rule compiled.
pub open spec fn compiled_from(g: GrammarElt, b: GrammarEltBase) -> bool {
    g.code == b.code && g.itype == b.itype && g.rule.pattern() == b.rule@
}

/// Compiles the rules of `elts`; `None` if one does not compile.
pub fn compile_elts(elts: &Vec<GrammarEltBase>) -> (r: Option<Vec<GrammarElt>>)
    ensures
        match r {
            Some(v) => v@.len() == elts@.len() && (forall|i: int|
                0 <= i < v@.len() ==> compiled_from(#[trigger] v@[i], elts@[i])) && (forall|i: int|
                0 <= i < elts@.len() ==> regex_valid(#[trigger] elts@[i].rule@)),
            None => exists|i: int| 0 <= i < elts@.len() && !regex_valid(#[trigger] elts@[i].rule@),
        },
{
    let mut v: Vec<GrammarElt> = Vec::new();
    let mut i: usize = 0;
    while i < elts.len()
        invariant
            i <= elts@.len(),
            v@.len() == i,
            forall|j: int| 0 <= j < i ==> compiled_from(#[trigger] v@[j], elts@[j]),
            forall|j: int| 0 <= j < i ==> regex_valid(#[trigger] elts@[j].rule@),
        decreases elts@.len() - i,
    {
        let e = elts[i];
        match re_compile(e.rule) {
            None => {
                assert(!regex_valid(elts@[i as int].rule@));
                return None;
            },
            Some(re) => {
                v.push(GrammarElt { itype: e.itype, code: e.code, rule: re });
                assert(compiled_from(v@[i as int], elts@[i as int]));
            },
        }
        i = i + 1;
    }
    Some(v)
}

/// The code and class of every compiled encoding in a list.
pub open spec fn compiled_shape(v: Seq<GrammarElt>) -> Seq<(u64, InstrClass)> {
    v.map_values(|g: GrammarElt| (g.code, g.itype))
}

/// The patterns of every compiled encoding in a list.
pub open spec fn compiled_patterns(v: Seq<GrammarElt>) -> Seq<Seq<char>> {
    v.map_values(|g: GrammarElt| g.rule.pattern())
}

/// Each opcode with its rule texts, in grammar order.
pub open spec fn grammar_text_pairs() -> Seq<(Seq<char>, Seq<Seq<char>>)> {
    Seq::new(grammar_rule_texts().len(), |i: int| (grammar_shape()[i].0, grammar_rule_texts()[i]))
}

/// The map that inserting the entries of `s` in order gives.
pub open spec fn text_map(s: Seq<(Seq<char>, Seq<Seq<char>>)>) -> Map<Seq<char>, Seq<Seq<char>>>
    decreases s.len(),
{
    if s.len() == 0 {
        Map::empty()
    } else {
        text_map(s.drop_last()).insert(s.last().0, s.last().1)
    }
}

/// Whether every rule text of the grammar compiles.
pub open spec fn grammar_rules_compile() -> bool {
    forall|i: int, j: int|
        0 <= i < grammar_rule_texts().len() && 0 <= j < grammar_rule_texts()[i].len() ==> regex_valid(
            #[trigger] grammar_rule_texts()[i][j],
        )
}

/// The grammar keyed by opcode, with every rule compiled: each opcode's
/// encodings with their codes, classes and rule patterns, in grammar order;
/// `None` exactly when a rule does not compile.
pub fn build_grammar() -> (r: Option<MutStrMap<Vec<GrammarElt>>>)
    ensures
        r is Some <==> grammar_rules_compile(),
        r matches Some(g) ==> g@.map_values(|v: Vec<GrammarElt>| compiled_shape(v@)) == shape_map(
            grammar_shape(),
        ),
        r matches Some(g) ==> g@.map_values(|v: Vec<GrammarElt>| compiled_patterns(v@)) == text_map(
            grammar_text_pairs(),
        ),
{
    let rules = grammar_rules();
    let ghost shapes = rules@.map_values(|e: (&'static str, Vec<GrammarEltBase>)| entry_shape(e));
    let ghost texts = rules@.map_values(|e: (&'static str, Vec<GrammarEltBase>)| entry_rule_texts(e));
    let ghost pairs = rules@.map_values(
        |e: (&'static str, Vec<GrammarEltBase>)| (e.0@, entry_rule_texts(e)),
    );
    assert(pairs =~= grammar_text_pairs());
    let mut g: MutStrMap<Vec<GrammarElt>> = MutStrMap::new();
    let mut i: usize = 0;
    proof {
        assert(g@.map_values(|v: Vec<GrammarElt>| compiled_shape(v@)) =~= shape_map(shapes.take(0)));
        assert(g@.map_values(|v: Vec<GrammarElt>| compiled_patterns(v@)) =~= text_map(pairs.take(0)));
    }
    while i < rules.len()
        invariant
            i <= rules@.len(),
            shapes == rules@.map_values(|e: (&'static str, Vec<GrammarEltBase>)| entry_shape(e)),
            texts == rules@.map_values(|e: (&'static str, Vec<GrammarEltBase>)| entry_rule_texts(e)),
            texts == grammar_rule_texts(),
            pairs == rules@.map_values(
                |e: (&'static str, Vec<GrammarEltBase>)| (e.0@, entry_rule_texts(e)),
            ),
            g@.map_values(|v: Vec<GrammarElt>| compiled_shape(v@)) == shape_map(shapes.take(i as int)),
            g@.map_values(|v: Vec<GrammarElt>| compiled_patterns(v@)) == text_map(pairs.take(i as int)),
            forall|k: int, j: int| 0 <= k < i && 0 <= j < texts[k].len() ==> regex_valid(#[trigger] texts[k][j]),
        decreases rules@.len() - i,
    {
        let (name, elts) = &rules[i];
        let ghost before = g@;
        assert(texts[i as int] == elts@.map_values(|g: GrammarEltBase| g.rule@));
        let compiled = match compile_elts(elts) {
            Some(c) => c,
            None => {
                proof {
                    let j = choose|j: int| 0 <= j < elts@.len() && !regex_valid(#[trigger] elts@[j].rule@);
                    assert(texts[i as int][j] == elts@[j].rule@);
                    assert(!regex_valid(grammar_rule_texts()[i as int][j]));
                }
                return None;
            },
        };
        proof {
            assert(compiled_shape(compiled@) =~= entry_shape(rules@[i as int]).1);
            assert(compiled_patterns(compiled@) =~= texts[i as int]);
            assert forall|j: int| 0 <= j < texts[i as int].len() implies regex_valid(#[trigger] texts[i as int][j]) by {
                assert(texts[i as int][j] == elts@[j].rule@);
            }
        }
        let ghost cs = compiled_shape(compiled@);
        let ghost cp = compiled_patterns(compiled@);
        g.insert(name, compiled);
        proof {
            assert(shapes.take(i + 1).drop_last() =~= shapes.take(i as int));
            assert(pairs.take(i + 1).drop_last() =~= pairs.take(i as int));
            assert(g@.map_values(|v: Vec<GrammarElt>| compiled_shape(v@)) =~= before.map_values(
                |v: Vec<GrammarElt>| compiled_shape(v@),
            ).insert(name@, cs));
            assert(g@.map_values(|v: Vec<GrammarElt>| compiled_patterns(v@)) =~= before.map_values(
                |v: Vec<GrammarElt>| compiled_patterns(v@),
            ).insert(name@, cp));
        }
        i = i + 1;
    }
    proof {
        assert(shapes.take(rules@.len() as int) =~= shapes);
        assert(pairs.take(rules@.len() as int) =~= pairs);
    }
    Some(g)
}

/// The pattern of a predicate prefix.
pub open spec fn pred_pattern() -> Seq<char> {
    r"(?<pred>@!?(?<predReg>P\d)\s+)"@
}

/// The pattern of an instruction (optional predicate, opcode, rest).
pub open spec fn inst_pattern() -> Seq<char> {
    pred_pattern() + r"?(?<op>\w+)(?<rest>[^;]*;)"@
}

/// The pattern of a control code.
pub open spec fn ctrl_pattern() -> Seq<char> {
    r"(?<ctrl>[0-9a-fA-F\-]{2}:[1-6\-]:[1-6\-]:[\-yY]:[0-9a-fA-F])"@
}

/// The pattern of a trailing comment.
pub open spec fn comm_pattern() -> Seq<char> {
    r"(?<comment>.*)"@
}

/// The pattern of an assembly line: control code, instruction, comment.
pub open spec fn asm_pattern() -> Seq<char> {
    r"^"@ + ctrl_pattern() + r"(?<space>\s+)"@ + inst_pattern() + comm_pattern()
}

/// The pattern of a cuobjdump instruction line: address, instruction, code.
pub open spec fn sass_pattern() -> Seq<char> {
    r"^\s+/\*(?<num>[0-9a-f]+)\*/\s+"@ + inst_pattern() + r"\s+/\* (?<code>0x[0-9a-f]+)"@
}

/// Opcode bytes whose immediate forms take another opcode byte.
pub open spec fn immed_table() -> Map<u64, u64> {
    Map::<u64, u64>::empty().insert(0x5c, 0x64).insert(0x5b, 0x6d).insert(0x59, 0x6b).insert(
        0x58,
        0x68,
    )
}

/// Reuse flags and their bits.
pub open spec fn reuse_table() -> Map<Seq<char>, u64> {
    Map::<Seq<char>, u64>::empty().insert("reuse1"@, 1).insert("reuse2"@, 2).insert("reuse3"@, 4)
}

/// Constant operands and the opcode bits they set.
pub open spec fn const_table() -> Map<Seq<char>, u64> {
    Map::<Seq<char>, u64>::empty().insert("c20"@, 0x10).insert("c39"@, 0x08)
}

/// Operands that select an immediate form.
pub open spec fn immed_op_names() -> Seq<Seq<char>> {
    seq!["i20"@, "f20"@, "d20"@]
}

/// The regular expressions and tables of the SASS grammar.
pub struct SassGrammar {
    ctrl_re: Re,
    pred_re: Re,
    inst_re: Re,
    comm_re: Re,
    asm_re: Re,
    sass_re: Re,
    flags: MutStrMap<MutStrMap<FlagVal>>,
    immed_codes: MutMap<u64, u64>,
    reuse_codes: MutStrMap<u64>,
    immed_ops: Vec<&'static str>,
    const_codes: MutStrMap<u64>,
    operands: MutStrMap<OperandEnc>,
}

fn pattern_of(parts: &Vec<&'static str>) -> (r: String)
    ensures
        r@ == parts@.fold_left(Seq::<char>::empty(), |acc: Seq<char>, p: &'static str| acc + p@),
{
    let mut v: Vec<char> = Vec::new();
    let mut i: usize = 0;
    while i < parts.len()
        invariant
            i <= parts@.len(),
            v@ == parts@.take(i as int).fold_left(
                Seq::<char>::empty(),
                |acc: Seq<char>, p: &'static str| acc + p@,
            ),
        decreases parts@.len() - i,
    {
        proof {
            assert(parts@.take(i + 1).drop_last() =~= parts@.take(i as int));
        }
        push_str(&mut v, parts[i]);
        i = i + 1;
    }
    proof {
        assert(parts@.take(parts@.len() as int) =~= parts@);
    }
    string_from_chars(&v)
}

impl SassGrammar {
    #[verifier::type_invariant]
    closed spec fn wf(&self) -> bool {
        &&& self.ctrl_re.pattern() == ctrl_pattern()
        &&& self.pred_re.pattern() == pred_pattern()
        &&& self.inst_re.pattern() == inst_pattern()
        &&& self.comm_re.pattern() == comm_pattern()
        &&& self.asm_re.pattern() == asm_pattern()
        &&& self.sass_re.pattern() == sass_pattern()
        &&& spec_build_flags() == Some(flags_view(self.flags@))
        &&& self.immed_codes@ == immed_table()
        &&& self.reuse_codes@ == reuse_table()
        &&& self.immed_ops@.map_values(|s: &'static str| s@) == immed_op_names()
        &&& self.const_codes@ == const_table()
        &&& self.operands@ == operand_table()
        &&& forall|k: Seq<char>| #[trigger]
            self.operands@.contains_key(k) ==> operand_enc_ok(self.operands@[k])
    }

    /// The flag table in use.
    pub closed spec fn flag_table(&self) -> Map<Seq<char>, Map<Seq<char>, FlagSpec>> {
        flags_view(self.flags@)
    }

    /// Compiles the patterns and builds the tables; `None` if a pattern does
    /// not compile or the flag table cannot be read.
    pub fn new() -> (r: Option<Self>)
        ensures
            r is Some <==> (regex_valid(ctrl_pattern()) && regex_valid(pred_pattern())
                && regex_valid(inst_pattern()) && regex_valid(comm_pattern()) && regex_valid(
                asm_pattern(),
            ) && regex_valid(sass_pattern()) && spec_build_flags() is Some),
            r matches Some(g) ==> spec_build_flags() == Some(g.flag_table()),
    {
        let pred_s = r"(?<pred>@!?(?<predReg>P\d)\s+)";
        let inst_base_s = r"?(?<op>\w+)(?<rest>[^;]*;)";
        let ctrl_s = r"(?<ctrl>[0-9a-fA-F\-]{2}:[1-6\-]:[1-6\-]:[\-yY]:[0-9a-fA-F])";
        let comm_s = r"(?<comment>.*)";
        let inst_str = pattern_of(&vec![pred_s, inst_base_s]);
        let asm_str = pattern_of(&vec![r"^", ctrl_s, r"(?<space>\s+)", pred_s, inst_base_s, comm_s]);
        let sass_str = pattern_of(
            &vec![r"^\s+/\*(?<num>[0-9a-f]+)\*/\s+", pred_s, inst_base_s, r"\s+/\* (?<code>0x[0-9a-f]+)"],
        );
        proof {
            reveal_with_fuel(Seq::fold_left, 7);
            assert(inst_str@ =~= inst_pattern());
            assert(asm_str@ =~= asm_pattern());
            assert(sass_str@ =~= sass_pattern());
        }
        let ctrl_re = re_compile(ctrl_s);
        let pred_re = re_compile(pred_s);
        let inst_re = re_compile(inst_str.as_str());
        let comm_re = re_compile(comm_s);
        let asm_re = re_compile(asm_str.as_str());
        let sass_re = re_compile(sass_str.as_str());
        let flags = build_flags();
        match (ctrl_re, pred_re, inst_re, comm_re, asm_re, sass_re, flags) {
            (Some(ctrl_re), Some(pred_re), Some(inst_re), Some(comm_re), Some(asm_re), Some(sass_re), Some(flags)) => {
                let mut immed_codes: MutMap<u64, u64> = MutMap::new();
                immed_codes.insert(0x5c, 0x64);
                immed_codes.insert(0x5b, 0x6d);
                immed_codes.insert(0x59, 0x6b);
                immed_codes.insert(0x58, 0x68);
                let mut reuse_codes: MutStrMap<u64> = MutStrMap::new();
                reuse_codes.insert("reuse1", 1);
                reuse_codes.insert("reuse2", 2);
                reuse_codes.insert("reuse3", 4);
                let mut const_codes: MutStrMap<u64> = MutStrMap::new();
                const_codes.insert("c20", 0x10);
                const_codes.insert("c39", 0x08);
                let immed_ops: Vec<&'static str> = vec!["i20", "f20", "d20"];
                proof {
                    assert(immed_ops@.map_values(|s: &'static str| s@) =~= immed_op_names());
                }
                Some(
                    SassGrammar {
                        ctrl_re,
                        pred_re,
                        inst_re,
                        comm_re,
                        asm_re,
                        sass_re,
                        flags,
                        immed_codes,
                        reuse_codes,
                        immed_ops,
                        const_codes,
                        operands: build_operands(),
                    },
                )
            },
            _ => None,
        }
    }

    /// The reuse bits that the reuse flags present in `cap_data` set.
    pub fn gen_reuse_code(&self, cap_data: &MutStrMap<String>) -> (r: u64)
        ensures
            r == (if cap_data@.contains_key("reuse1"@) {
                1u64
            } else {
                0u64
            }) | (if cap_data@.contains_key("reuse2"@) {
                2u64
            } else {
                0u64
            }) | (if cap_data@.contains_key("reuse3"@) {
                4u64
            } else {
                0u64
            }),
    {
        proof {
            use_type_invariant(self);
        }
        proof {
            reveal_strlit("reuse1");
            reveal_strlit("reuse2");
            reveal_strlit("reuse3");
            assert("reuse1"@[5] != "reuse2"@[5] && "reuse1"@[5] != "reuse3"@[5] && "reuse2"@[5]
                != "reuse3"@[5]);
        }
        let a: u64 = if cap_data.contains_key("reuse1") {
            *self.reuse_codes.index("reuse1")
        } else {
            0
        };
        let b: u64 = if cap_data.contains_key("reuse2") {
            *self.reuse_codes.index("reuse2")
        } else {
            0
        };
        let c: u64 = if cap_data.contains_key("reuse3") {
            *self.reuse_codes.index("reuse3")
        } else {
            0
        };
        assert(a == (if cap_data@.contains_key("reuse1"@) { 1u64 } else { 0u64 }));
        assert(b == (if cap_data@.contains_key("reuse2"@) { 2u64 } else { 0u64 }));
        assert(c == (if cap_data@.contains_key("reuse3"@) { 4u64 } else { 0u64 }));
        a | b | c
    }
}

/// Whether the texts `a` and `b` are equal.
pub fn str_eq(a: &str, b: &str) -> (r: bool)
    ensures
        r == (a@ == b@),
{
    let ac = chars_of(a);
    chars_eq_str(&ac, b)
}

/// The predicate bits of an instruction's captures, what the predicate
/// step records, and the captures left: `None` where the predicate number
/// cannot be read.
pub open spec fn pred_step(cap: Map<Seq<char>, Seq<char>>) -> Option<
    (u64, Seq<Seq<char>>, Map<Seq<char>, Seq<char>>),
> {
    if cap.contains_key("noPred"@) {
        Some((0u64, seq!["noPred"@], cap.remove("noPred"@)))
    } else {
        let p = if cap.contains_key("predNum"@) {
            spec_parse_u64(cap["predNum"@])
        } else {
            Some(7u64)
        };
        match p {
            None => None,
            Some(p) => if cap.contains_key("predNot"@) {
                Some(
                    (
                        (p | 8u64) << 16u64,
                        seq!["PredNum"@, "PredNot"@],
                        cap.remove("predNum"@).remove("predNot"@),
                    ),
                )
            } else {
                Some((0u64, seq!["PredNum"@], cap))
            },
        }
    }
}

/// The opcode-byte bits a capture named `name` sets.
pub open spec fn opcode_bits(immed_code: u64, name: Seq<char>) -> u64 {
    if immed_op_names().contains(name) {
        immed_code << 56u64
    } else if const_table().contains_key(name) {
        const_table()[name] << 56u64
    } else {
        0
    }
}

/// The operand bits of the capture `name` with text `text` and what is
/// recorded for it; `None` where the text cannot be encoded.
pub open spec fn operand_bits(cap: Map<Seq<char>, Seq<char>>, name: Seq<char>, text: Seq<char>) -> Option<
    (u64, Seq<Seq<char>>),
> {
    if operand_table().contains_key(name) && (name != "r20"@ || !cap.contains_key("r39s20"@)) {
        match spec_encode_operand(operand_table()[name], text) {
            None => None,
            Some(b) => Some((b, seq![name])),
        }
    } else {
        Some((0u64, Seq::empty()))
    }
}

/// The flag bits of the capture `name` for an opcode with flag table `ft`
/// and what is recorded for it; `None` for a choice without an entry under
/// the capture's name.
pub open spec fn flag_bits(ft: Map<Seq<char>, FlagSpec>, name: Seq<char>) -> Option<
    (u64, Seq<Seq<char>>),
> {
    if ft.contains_key(name) {
        match ft[name] {
            FlagSpec::Bits(v) => Some((v, seq![name])),
            FlagSpec::Choice(m) => if m.contains_key(name) {
                Some((m[name], seq![name, "capdata->capture"@]))
            } else {
                None
            },
        }
    } else {
        Some((0u64, Seq::empty()))
    }
}

/// The bits the captures `items` add, in order, and what is recorded.
pub open spec fn captures_fold(
    ft: Map<Seq<char>, FlagSpec>,
    immed_code: u64,
    cap: Map<Seq<char>, Seq<char>>,
    items: Seq<(Seq<char>, Seq<char>)>,
) -> Option<(u64, Seq<Seq<char>>)>
    decreases items.len(),
{
    if items.len() == 0 {
        Some((0u64, Seq::empty()))
    } else {
        match captures_fold(ft, immed_code, cap, items.drop_last()) {
            None => None,
            Some((x, t)) => {
                let (name, text) = items.last();
                match operand_bits(cap, name, text) {
                    None => None,
                    Some((ob, ot)) => match flag_bits(ft, name) {
                        None => None,
                        Some((fb, fbt)) => Some(
                            (x ^ (opcode_bits(immed_code, name) ^ ob ^ fb), t + ot + fbt),
                        ),
                    },
                }
            },
        }
    }
}

/// The texts of a listing of named strings.
pub open spec fn item_texts(items: Seq<(Seq<char>, String)>) -> Seq<(Seq<char>, Seq<char>)> {
    items.map_values(|e: (Seq<char>, String)| (e.0, e.1@))
}

/// Whether the captures hold one of the reuse markers `rcode1` to `rcode3`.
pub open spec fn has_rcode(cap: Map<Seq<char>, Seq<char>>) -> bool {
    cap.contains_key("rcode1"@) || cap.contains_key("rcode2"@) || cap.contains_key("rcode3"@)
}

/// Whether `s` is one of the texts `v`.
pub fn contains_str(v: &Vec<&'static str>, s: &str) -> (r: bool)
    ensures
        r == v@.map_values(|x: &'static str| x@).contains(s@),
{
    let mut i: usize = 0;
    while i < v.len()
        invariant
            i <= v@.len(),
            forall|j: int| 0 <= j < i ==> v@[j]@ != s@,
        decreases v@.len() - i,
    {
        if str_eq(v[i], s) {
            assert(v@.map_values(|x: &'static str| x@)[i as int] == s@);
            return true;
        }
        i = i + 1;
    }
    proof {
        if v@.map_values(|x: &'static str| x@).contains(s@) {
            let j = v@.map_values(|x: &'static str| x@).index_of(s@);
            assert(v@[j]@ == s@);
        }
    }
    false
}

/// Once a capture cannot be encoded, no longer run of captures can be.
pub proof fn lemma_captures_fold_stuck(
    ft: Map<Seq<char>, FlagSpec>,
    immed_code: u64,
    cap: Map<Seq<char>, Seq<char>>,
    items: Seq<(Seq<char>, Seq<char>)>,
    n: int,
)
    requires
        0 <= n < items.len(),
        captures_fold(ft, immed_code, cap, items.take(n)) is Some,
        ({
            let (name, text) = items[n];
            operand_bits(cap, name, text) is None || (operand_bits(cap, name, text) is Some
                && flag_bits(ft, name) is None)
        }),
    ensures
        captures_fold(ft, immed_code, cap, items) is None,
{
    assert(items.take(n + 1).drop_last() =~= items.take(n));
    assert(items.take(n + 1).last() == items[n]);
    assert(captures_fold(ft, immed_code, cap, items.take(n + 1)) is None);
    lemma_captures_fold_stays_none(ft, immed_code, cap, items, n + 1);
}

proof fn lemma_captures_fold_stays_none(
    ft: Map<Seq<char>, FlagSpec>,
    immed_code: u64,
    cap: Map<Seq<char>, Seq<char>>,
    items: Seq<(Seq<char>, Seq<char>)>,
    n: int,
)
    requires
        0 <= n <= items.len(),
        captures_fold(ft, immed_code, cap, items.take(n)) is None,
    ensures
        captures_fold(ft, immed_code, cap, items) is None,
    decreases items.len() - n,
{
    if n < items.len() {
        assert(items.take(n + 1).drop_last() =~= items.take(n));
        lemma_captures_fold_stays_none(ft, immed_code, cap, items, n + 1);
    } else {
        assert(items.take(n) =~= items);
    }
}

impl SassGrammar {
    /// The bits the capture `k` with text `v` adds (opcode byte, operand,
    /// flag) and what it records in `test`; `None` where it cannot be
    /// encoded.
    fn capture_code(
        &self,
        ft: &MutStrMap<FlagVal>,
        immed_code: u64,
        cap_data: &MutStrMap<String>,
        k: &String,
        v: &String,
        test: &mut Vec<String>,
    ) -> (r: Option<u64>)
        ensures
            match r {
                Some(x) => operand_bits(texts(cap_data@), k@, v@) matches Some((ob, ot)) && flag_bits(
                    ft@.map_values(|f: FlagVal| f@),
                    k@,
                ) matches Some((fb, fbt)) && x == opcode_bits(immed_code, k@) ^ ob ^ fb
                    && final(test).deep_view() == old(test).deep_view() + ot + fbt,
                None => operand_bits(texts(cap_data@), k@, v@) is None || (operand_bits(
                    texts(cap_data@),
                    k@,
                    v@,
                ) is Some && flag_bits(ft@.map_values(|f: FlagVal| f@), k@) is None),
            },
    {
        proof {
            use_type_invariant(self);
        }
        let ghost ftv = ft@.map_values(|f: FlagVal| f@);
                let name = k.as_str();
                let text = v.as_str();
                let obits: u64 = if contains_str(&self.immed_ops, name) {
                    immed_code << 56u64
                } else {
                    match self.const_codes.get(name) {
                        Some(c) => *c << 56u64,
                        None => 0,
                    }
                };
                let ghost t_before = test.deep_view();
                let ob: u64 = match self.operands.get(name) {
                    Some(enc) => {
                        if !str_eq(name, "r20") || !cap_data.contains_key("r39s20") {
                            match encode_operand(*enc, text) {
                                None => {
                                    return None;
                                },
                                Some(b) => {
                                    test.push(k.clone());
                                    b
                                },
                            }
                        } else {
                            0
                        }
                    },
                    None => 0,
                };
                proof {
                    let obs = operand_bits(texts(cap_data@), k@, v@);
                    assert(obs matches Some((b, t)) && b == ob && test.deep_view() =~= t_before + t);
                }
                let ghost t_mid = test.deep_view();
                let fb: u64 = match ft.get(name) {
                    Some(FlagVal::Bits(b)) => {
                        test.push(k.clone());
                        *b
                    },
                    Some(FlagVal::Choice(m)) => match m.get(name) {
                        Some(c) => {
                            test.push(k.clone());
                            test.push("capdata->capture".to_owned());
                            *c
                        },
                        None => {
                            return None;
                        },
                    },
                    None => 0,
                };
                proof {
                    let fbs = flag_bits(ftv, k@);
                    assert(fbs matches Some((b, t)) && b == fb && test.deep_view() =~= t_mid + t);
                }
        Some(obits ^ ob ^ fb)
    }

    /// The code of an instruction `op` of encoding `grammar` with captures
    /// `cap_data`: the base code with the predicate (only a negated
    /// predicate changes it), the opcode byte of an immediate or constant
    /// form, every operand and every flag XORed in; `test` records what was
    /// encoded. `None` for an opcode without flags, a base code without an
    /// immediate form, an `rcode` marker, or a capture that cannot be
    /// encoded. The predicate captures leave `cap_data`.
    pub fn gen_code(
        &self,
        op: &str,
        grammar: &GrammarElt,
        cap_data: &mut MutStrMap<String>,
        test: &mut Vec<String>,
    ) -> (r: Option<(u64, u64)>)
        ensures
            r is Some ==> {
                let ft = self.flag_table()[op@];
                let ps = pred_step(texts(old(cap_data)@)).unwrap();
                let cf = captures_fold(
                    ft,
                    immed_table()[grammar.code >> 56u64],
                    ps.2,
                    item_texts(final(cap_data).items()),
                ).unwrap();
                &&& self.flag_table().contains_key(op@)
                &&& immed_table().contains_key(grammar.code >> 56u64)
                &&& pred_step(texts(old(cap_data)@)) is Some
                &&& !has_rcode(ps.2)
                &&& texts(final(cap_data)@) == ps.2
                &&& captures_fold(ft, immed_table()[grammar.code >> 56u64], ps.2, item_texts(final(cap_data).items())) is Some
                &&& r == Some((grammar.code ^ ps.0 ^ cf.0, 0u64))
                &&& final(test).deep_view() == old(test).deep_view() + ps.1 + cf.1
            },
            r is None ==> !self.flag_table().contains_key(op@) || !immed_table().contains_key(
                grammar.code >> 56u64,
            ) || pred_step(texts(old(cap_data)@)) is None || has_rcode(
                pred_step(texts(old(cap_data)@)).unwrap().2,
            ) || captures_fold(
                self.flag_table()[op@],
                immed_table()[grammar.code >> 56u64],
                pred_step(texts(old(cap_data)@)).unwrap().2,
                item_texts(final(cap_data).items()),
            ) is None,
    {
        proof {
            use_type_invariant(self);
        }
        let ft = match self.flags.get(op) {
            Some(ft) => ft,
            None => return None,
        };
        let immed_code: u64 = match self.immed_codes.get(&(grammar.code >> 56u64)) {
            Some(c) => *c,
            None => return None,
        };
        let ghost cap0 = texts(cap_data@);
        let ghost test0 = test.deep_view();
        let mut px: u64 = 0;
        if cap_data.contains_key("noPred") {
            cap_data.remove("noPred");
            test.push("noPred".to_owned());
            proof {
                assert(texts(cap_data@) =~= cap0.remove("noPred"@));
                assert(test.deep_view() =~= test0 + seq!["noPred"@]);
                assert(pred_step(cap0).unwrap().0 == px);
            }
        } else {
            let p: u64 = if cap_data.contains_key("predNum") {
                match parse_u64(cap_data.index("predNum").as_str()) {
                    Some(p) => p,
                    None => return None,
                }
            } else {
                7
            };
            test.push("PredNum".to_owned());
            if cap_data.contains_key("predNot") {
                px = (p | 8u64) << 16u64;
                test.push("PredNot".to_owned());
                cap_data.remove("predNum");
                cap_data.remove("predNot");
                proof {
                    assert(texts(cap_data@) =~= cap0.remove("predNum"@).remove("predNot"@));
                    assert(test.deep_view() =~= test0 + seq!["PredNum"@, "PredNot"@]);
                    assert(pred_step(cap0).unwrap().0 == px);
                }
            } else {
                proof {
                    assert(test.deep_view() =~= test0 + seq!["PredNum"@]);
                    assert(pred_step(cap0).unwrap().0 == px);
                }
            }
        }
        let ghost ps = pred_step(cap0).unwrap();
        assert(texts(cap_data@) == ps.2);
        if cap_data.contains_key("rcode1") || cap_data.contains_key("rcode2") || cap_data.contains_key(
            "rcode3",
        ) {
            return None;
        }
        let code = grammar.code ^ px;
        let ghost items = item_texts(cap_data.items());
        let ghost ftv = ft@.map_values(|v: FlagVal| v@);
        assert(ftv == self.flag_table()[op@]);
        let mut x: u64 = 0;
        let mut n: usize = 0;
        let total = cap_data.len();
        let mut it = cap_data.iter();
        proof {
            assert(items.take(0) =~= Seq::<(Seq<char>, Seq<char>)>::empty());
            assert(item_texts(it.remaining()) =~= items.skip(0));
        }
        loop
            invariant
                n <= items.len(),
                items.len() == total,
                items == item_texts(cap_data.items()),
                texts(cap_data@) == ps.2,
                item_texts(it.remaining()) == items.skip(n as int),
                ftv == ft@.map_values(|v: FlagVal| v@),
                ftv == self.flag_table()[op@],
                immed_code == immed_table()[grammar.code >> 56u64],
                cap0 == texts(old(cap_data)@),
                ps == pred_step(cap0).unwrap(),
                forall|k: Seq<char>| #[trigger]
                    self.operands@.contains_key(k) ==> operand_enc_ok(self.operands@[k]),
                self.operands@ == operand_table(),
                self.const_codes@ == const_table(),
                self.immed_ops@.map_values(|s: &'static str| s@) == immed_op_names(),
                captures_fold(ftv, immed_code, ps.2, items.take(n as int)) matches Some((cx, ct)) && cx
                    == x && test.deep_view() == test0 + ps.1 + ct,
            ensures
                captures_fold(ftv, immed_code, ps.2, items) matches Some((cx, ct)) && cx == x
                    && test.deep_view() == test0 + ps.1 + ct,
            decreases items.len() - n,
        {
            let ghost rem = it.remaining();
            let next = it.next();
            let (k, v) = match next {
                None => {
                    proof {
                        assert(items.skip(n as int).len() == 0);
                        assert(items.take(n as int) =~= items);
                    }
                    break;
                },
                Some(kv) => kv,
            };
            proof {
                assert(rem.len() > 0);
                assert(item_texts(rem) == items.skip(n as int));
                assert(item_texts(rem).len() == rem.len());
                assert(items.skip(n as int).len() == items.len() - n);
                assert(n < items.len());
                assert(items.skip(n as int)[0] == (k@, v@));
                assert(items[n as int] == (k@, v@));
                assert(item_texts(rem.drop_first()) =~= item_texts(rem).drop_first());
                assert(items.skip(n as int).drop_first() =~= items.skip(n + 1));
                assert(items.take(n + 1).drop_last() =~= items.take(n as int));
                assert(items.take(n + 1).last() == (k@, v@));
                assert(item_texts(it.remaining()) =~= items.skip(n + 1));
            }
            let bits = match self.capture_code(ft, immed_code, cap_data, k, v, test) {
                Some(b) => b,
                None => {
                    proof {
                        lemma_captures_fold_stuck(ftv, immed_code, ps.2, items, n as int);
                    }
                    return None;
                },
            };
            x = x ^ bits;
            n = n + 1;
        }
        Some((code ^ x, 0u64))
    }
}

/// What `normalize_spacing` gives.
pub open spec fn spec_normalize(s: Seq<char>) -> Option<Seq<char>> {
    if regex_valid(r"\t"@) && regex_valid(r"\s{2,}"@) {
        Some(regex_replace_all(r"\s{2,}"@, regex_replace_all(r"\t"@, s, " "@), " "@))
    } else {
        None
    }
}

/// The named groups of the first to last matches of `pattern` in `line`
/// (later ones overriding), if it matches at all.
pub open spec fn named_fields(pattern: Seq<char>, line: Seq<char>) -> Option<Map<Seq<char>, Seq<char>>> {
    if regex_is_match(pattern, line) {
        Some(matches_texts(regex_group_names(pattern), regex_captures(pattern, line), Map::empty()))
    } else {
        None
    }
}

/// An instruction line of assembly source.
pub struct AsmInstr {
    pub linenum: usize,
    pub pred: String,
    pub pred_reg: String,
    pub space: String,
    pub op: String,
    pub comment: String,
    pub inst: String,
    pub ctrl: u64,
}

/// The fields of an assembly line: predicate, predicate register, spacing,
/// opcode, comment, normalized instruction and control code.
pub open spec fn spec_asm_line(line: Seq<char>) -> Option<
    Option<(Seq<char>, Seq<char>, Seq<char>, Seq<char>, Seq<char>, Seq<char>, u64)>,
> {
    match named_fields(asm_pattern(), line) {
        None => Some(None),
        Some(m) => if m.contains_key("pred"@) && m.contains_key("predReg"@) && m.contains_key(
            "space"@,
        ) && m.contains_key("op"@) && m.contains_key("comment"@) && m.contains_key("rest"@)
            && m.contains_key("ctrl"@) {
            match spec_normalize(m["pred"@] + m["op"@] + m["rest"@]) {
                None => None,
                Some(inst) => if read_ctrl_ok(m["ctrl"@]) {
                    Some(
                        Some(
                            (
                                m["pred"@],
                                m["predReg"@],
                                m["space"@],
                                m["op"@],
                                m["comment"@],
                                inst,
                                spec_read_ctrl(m["ctrl"@]),
                            ),
                        ),
                    )
                } else {
                    None
                },
            }
        } else {
            None
        },
    }
}

/// The fields of a cuobjdump line: address, predicate, opcode, normalized
/// instruction without and with predicate, and code.
pub open spec fn spec_sass_line(line: Seq<char>) -> Option<
    Option<(u64, Seq<char>, Seq<char>, Seq<char>, Seq<char>, u64)>,
> {
    match named_fields(sass_pattern(), line) {
        None => Some(None),
        Some(m) => if m.contains_key("num"@) && m.contains_key("pred"@) && m.contains_key("op"@)
            && m.contains_key("rest"@) && m.contains_key("code"@) {
            match (
                spec_parse_u64(m["num"@]),
                spec_normalize(m["op"@] + m["rest"@]),
                spec_normalize(m["pred"@] + m["op"@] + m["rest"@]),
                spec_parse_u64(m["code"@]),
            ) {
                (Some(num), Some(ins), Some(inst), Some(code)) => Some(
                    Some((num, m["pred"@], m["op"@], ins, inst, code)),
                ),
                _ => None,
            }
        } else {
            None
        },
    }
}

/// An instruction line of cuobjdump output.
pub struct SassInstr {
    pub num: u64,
    pub pred: String,
    pub op: String,
    pub ins: String,
    pub inst: String,
    pub code: u64,
}

fn concat_strings(parts: &Vec<&String>) -> (r: String)
    ensures
        r@ == parts@.fold_left(Seq::<char>::empty(), |acc: Seq<char>, p: &String| acc + p@),
{
    let mut v: Vec<char> = Vec::new();
    let mut i: usize = 0;
    while i < parts.len()
        invariant
            i <= parts@.len(),
            v@ == parts@.take(i as int).fold_left(
                Seq::<char>::empty(),
                |acc: Seq<char>, p: &String| acc + p@,
            ),
        decreases parts@.len() - i,
    {
        proof {
            assert(parts@.take(i + 1).drop_last() =~= parts@.take(i as int));
        }
        push_str(&mut v, parts[i].as_str());
        i = i + 1;
    }
    proof {
        assert(parts@.take(parts@.len() as int) =~= parts@);
    }
    string_from_chars(&v)
}

impl SassGrammar {
    /// Reads an assembly line `control instruction comment`: `Some(None)`
    /// for a line that is not one, `None` for one whose fields are missing
    /// or cannot be read.
    pub fn process_asm_line(&self, line: &str, linenum: usize) -> (r: Option<Option<AsmInstr>>)
        ensures
            match r {
                None => spec_asm_line(line@) is None,
                Some(None) => spec_asm_line(line@) == Some(
                    None::<(Seq<char>, Seq<char>, Seq<char>, Seq<char>, Seq<char>, Seq<char>, u64)>,
                ),
                Some(Some(a)) => a.linenum == linenum && spec_asm_line(line@) == Some(
                    Some((a.pred@, a.pred_reg@, a.space@, a.op@, a.comment@, a.inst@, a.ctrl)),
                ),
            },
    {
        proof {
            use_type_invariant(self);
        }
        let mut map: MutStrMap<String> = MutStrMap::new();
        proof {
            assert(texts(map@) =~= Map::<Seq<char>, Seq<char>>::empty());
        }
        if !re_matches_by_name(line, &self.asm_re, &mut map) {
            return Some(None);
        }
        if !(map.contains_key("pred") && map.contains_key("predReg") && map.contains_key("space")
            && map.contains_key("op") && map.contains_key("comment") && map.contains_key("rest")
            && map.contains_key("ctrl")) {
            return None;
        }
        let pred = map.index("pred");
        let op = map.index("op");
        let rest = map.index("rest");
        let joined = concat_strings(&vec![pred, op, rest]);
        proof {
            reveal_with_fuel(Seq::fold_left, 4);
            assert(joined@ =~= pred@ + op@ + rest@);
        }
        let inst = match normalize_spacing(joined.as_str()) {
            Some(s) => s,
            None => return None,
        };
        let ctrl = match try_read_ctrl(map.index("ctrl").as_str(), line) {
            Some(c) => c,
            None => return None,
        };
        Some(
            Some(
                AsmInstr {
                    linenum,
                    pred: pred.clone(),
                    pred_reg: map.index("predReg").clone(),
                    space: map.index("space").clone(),
                    op: op.clone(),
                    comment: map.index("comment").clone(),
                    inst,
                    ctrl,
                },
            ),
        )
    }

    /// Reads a cuobjdump instruction line `/*address*/ instruction /* code`:
    /// `Some(None)` for a line that is not one, `None` for one whose fields
    /// are missing or cannot be read.
    pub fn process_sass_line(&self, line: &str, linenum: usize) -> (r: Option<Option<SassInstr>>)
        ensures
            match r {
                None => spec_sass_line(line@) is None,
                Some(None) => spec_sass_line(line@) == Some(
                    None::<(u64, Seq<char>, Seq<char>, Seq<char>, Seq<char>, u64)>,
                ),
                Some(Some(s)) => spec_sass_line(line@) == Some(
                    Some((s.num, s.pred@, s.op@, s.ins@, s.inst@, s.code)),
                ),
            },
    {
        proof {
            use_type_invariant(self);
        }
        let mut map: MutStrMap<String> = MutStrMap::new();
        proof {
            assert(texts(map@) =~= Map::<Seq<char>, Seq<char>>::empty());
        }
        if !re_matches_by_name(line, &self.sass_re, &mut map) {
            return Some(None);
        }
        if !(map.contains_key("num") && map.contains_key("pred") && map.contains_key("op")
            && map.contains_key("rest") && map.contains_key("code")) {
            return None;
        }
        let pred = map.index("pred");
        let op = map.index("op");
        let rest = map.index("rest");
        let num = match parse_u64(map.index("num").as_str()) {
            Some(n) => n,
            None => return None,
        };
        let j1 = concat_strings(&vec![op, rest]);
        let j2 = concat_strings(&vec![pred, op, rest]);
        proof {
            reveal_with_fuel(Seq::fold_left, 4);
            assert(j1@ =~= op@ + rest@);
            assert(j2@ =~= pred@ + op@ + rest@);
        }
        let ins = match normalize_spacing(j1.as_str()) {
            Some(s) => s,
            None => return None,
        };
        let inst = match normalize_spacing(j2.as_str()) {
            Some(s) => s,
            None => return None,
        };
        let code = match parse_u64(map.index("code").as_str()) {
            Some(c) => c,
            None => return None,
        };
        Some(Some(SassInstr { num, pred: pred.clone(), op: op.clone(), ins, inst, code }))
    }
}

} // verus!
