//! The instruction classes and the SASS grammar: for every opcode, the
//! encodings it may take, each with its base code and its matching rule.
use vstd::prelude::*;
use vstd::string::*;

verus! {

/// Scheduling properties of a class of instructions.
#[derive(Clone, Copy, PartialEq, Eq, Debug)]
pub struct InstrType {
    pub class: &'static str,
    pub lat: u8,
    pub blat: u8,
    pub rlat: u8,
    pub rhold: u8,
    pub tput: u8,
    pub dual: bool,
    pub reuse: bool,
}

/// The instruction classes of the grammar.
#[derive(Clone, Copy, PartialEq, Eq, Debug)]
pub enum InstrClass {
    NoClass,
    S2r,
    Smem,
    Gmem,
    X32,
    X64,
    Shft,
    Cmp,
    Qtr,
    Rro,
    Vote,
}

/// The numeric properties of a class: latency, barrier latency, read
/// latency, read hold, throughput, dual issue, register reuse.
pub open spec fn class_numbers(c: InstrClass) -> (u8, u8, u8, u8, u8, bool, bool) {
    match c {
        InstrClass::NoClass => (0, 0, 0, 0, 0, false, false),
        InstrClass::S2r => (2, 25, 0, 0, 1, false, false),
        InstrClass::Smem => (2, 30, 2, 20, 1, true, false),
        InstrClass::Gmem => (2, 200, 4, 20, 1, true, false),
        InstrClass::X32 => (6, 0, 0, 0, 1, false, true),
        InstrClass::X64 => (2, 128, 0, 0, 128, false, true),
        InstrClass::Shft => (6, 0, 0, 0, 2, false, true),
        InstrClass::Cmp => (13, 0, 0, 0, 2, false, true),
        InstrClass::Qtr => (8, 0, 4, 0, 1, true, false),
        InstrClass::Rro => (2, 0, 0, 0, 1, false, false),
        InstrClass::Vote => (2, 0, 0, 0, 1, false, false),
    }
}

/// The name of class `c`.
pub open spec fn class_name(c: InstrClass) -> Seq<char> {
    match c {
        InstrClass::NoClass => ""@,
        InstrClass::S2r => "s2r"@,
        InstrClass::Smem => "mem"@,
        InstrClass::Gmem => "mem"@,
        InstrClass::X32 => "x32"@,
        InstrClass::X64 => "x64"@,
        InstrClass::Shft => "shift"@,
        InstrClass::Cmp => "cmp"@,
        InstrClass::Qtr => "qtr"@,
        InstrClass::Rro => "rro"@,
        InstrClass::Vote => "vote"@,
    }
}

/// The scheduling properties of class `c`.
pub fn instr_type(c: InstrClass) -> (t: InstrType)
    ensures
        t.class@ == class_name(c),
        (t.lat, t.blat, t.rlat, t.rhold, t.tput, t.dual, t.reuse) == class_numbers(c),
{
    match c {
        InstrClass::NoClass => InstrType { class: "", lat: 0, blat: 0, rlat: 0, rhold: 0, tput: 0, dual: false, reuse: false },
        InstrClass::S2r => InstrType { class: "s2r", lat: 2, blat: 25, rlat: 0, rhold: 0, tput: 1, dual: false, reuse: false },
        InstrClass::Smem => InstrType { class: "mem", lat: 2, blat: 30, rlat: 2, rhold: 20, tput: 1, dual: true, reuse: false },
        InstrClass::Gmem => InstrType { class: "mem", lat: 2, blat: 200, rlat: 4, rhold: 20, tput: 1, dual: true, reuse: false },
        InstrClass::X32 => InstrType { class: "x32", lat: 6, blat: 0, rlat: 0, rhold: 0, tput: 1, dual: false, reuse: true },
        InstrClass::X64 => InstrType { class: "x64", lat: 2, blat: 128, rlat: 0, rhold: 0, tput: 128, dual: false, reuse: true },
        InstrClass::Shft => InstrType { class: "shift", lat: 6, blat: 0, rlat: 0, rhold: 0, tput: 2, dual: false, reuse: true },
        InstrClass::Cmp => InstrType { class: "cmp", lat: 13, blat: 0, rlat: 0, rhold: 0, tput: 2, dual: false, reuse: true },
        InstrClass::Qtr => InstrType { class: "qtr", lat: 8, blat: 0, rlat: 4, rhold: 0, tput: 1, dual: true, reuse: false },
        InstrClass::Rro => InstrType { class: "rro", lat: 2, blat: 0, rlat: 0, rhold: 0, tput: 1, dual: false, reuse: false },
        InstrClass::Vote => InstrType { class: "vote", lat: 2, blat: 0, rlat: 0, rhold: 0, tput: 1, dual: false, reuse: false },
    }
}

/// One encoding of an opcode: its class, base code and matching rule.
#[derive(Clone, Copy, PartialEq, Eq, Debug)]
pub struct GrammarEltBase {
    pub itype: InstrClass,
    pub code: u64,
    pub rule: &'static str,
}

impl GrammarEltBase {
    /// An encoding of no class, code 0 and an empty rule.
    pub fn default() -> (e: Self)
        ensures
            e.itype == InstrClass::NoClass,
            e.code == 0,
            e.rule@ == Seq::<char>::empty(),
    {
        proof {
            reveal_strlit("");
        }
        GrammarEltBase { itype: InstrClass::NoClass, code: 0, rule: "" }
    }
}

/// The opcodes of the grammar with the base code and class of each of their
/// encodings, in grammar order.
pub open spec fn grammar_shape() -> Seq<(Seq<char>, Seq<(u64, InstrClass)>)> {
    seq![
        ("ATOM"@, seq![(0xed00000000000000u64, InstrClass::Gmem)]),
        ("ATOMS"@, seq![(0xec00000000000000u64, InstrClass::Smem)]),
        ("B2R"@, seq![(0xf0b800010000ff00u64, InstrClass::X32)]),
        ("BAR"@, seq![(0xf0a8000000000000u64, InstrClass::Gmem)]),
        ("BFE"@, seq![(0x5c01000000000000u64, InstrClass::Shft)]),
        ("BFI"@, seq![(0x5bf0000000000000u64, InstrClass::Shft)]),
        ("BPT"@, seq![(0xe3a00000000000c0u64, InstrClass::X32)]),
        ("BRA"@, seq![(0xe24000000000000fu64, InstrClass::X32), (0xe240000000000002u64, InstrClass::X32)]),
        ("BRK"@, seq![(0xe34000000000000fu64, InstrClass::X32)]),
        ("BRX"@, seq![(0x0u64, InstrClass::X32)]),
        ("CAL"@, seq![(0xe260000000000040u64, InstrClass::X32)]),
        ("CCTL"@, seq![(0x5c88000000000000u64, InstrClass::X32)]),
        ("CCTLL"@, seq![(0x5c88000000000000u64, InstrClass::X32)]),
        ("CCTLT"@, seq![(0x5c88000000000000u64, InstrClass::X32)]),
        ("CONT"@, seq![(0xe35000000000000fu64, InstrClass::X32)]),
        ("CS2R"@, seq![(0x50c8000000000000u64, InstrClass::X32)]),
        ("CSET"@, seq![(0x0u64, InstrClass::X32)]),
        ("CSETP"@, seq![(0x0u64, InstrClass::X32)]),
        ("DADD"@, seq![(0x5c70000000000000u64, InstrClass::X64)]),
        ("DEPBAR"@, seq![(0xf0f0000000000000u64, InstrClass::Gmem), (0xf0f0000000000000u64, InstrClass::Gmem)]),
        ("DFMA"@, seq![(0x5b70000000000000u64, InstrClass::X64)]),
        ("DMNMX"@, seq![(0x5c50000000000000u64, InstrClass::Cmp)]),
        ("DMUL"@, seq![(0x5c80000000000000u64, InstrClass::X64)]),
        ("DP2A"@, seq![(0x53f9000000000000u64, InstrClass::X32)]),
        ("DP4A"@, seq![(0x53f8000000000000u64, InstrClass::X32)]),
        ("DSET"@, seq![(0x5900000000000000u64, InstrClass::Cmp)]),
        ("DSETP"@, seq![(0x5b80000000000000u64, InstrClass::Cmp)]),
        ("EXIT"@, seq![(0xe30000000000000fu64, InstrClass::X32)]),
        ("F2F"@, seq![(0x5ca8000000000000u64, InstrClass::Qtr)]),
        ("F2I"@, seq![(0x5cb0000000000000u64, InstrClass::Qtr)]),
        ("FADD"@, seq![(0x5c58000000000000u64, InstrClass::X32)]),
        ("FADD32I"@, seq![(0x800000000000000u64, InstrClass::X32)]),
        ("FCHK"@, seq![(0x5c88000000000000u64, InstrClass::X32)]),
        ("FCMP"@, seq![(0x5ba0000000000000u64, InstrClass::Cmp)]),
        ("FFMA"@, seq![(0x5980000000000000u64, InstrClass::X32), (0x5980000000000000u64, InstrClass::X32)]),
        ("FLO"@, seq![(0x5c30000000000000u64, InstrClass::S2r)]),
        ("FMNMX"@, seq![(0x5c60000000000000u64, InstrClass::Shft)]),
        ("FMUL"@, seq![(0x5c68000000000000u64, InstrClass::X32)]),
        ("FMUL32I"@, seq![(0x1e00000000000000u64, InstrClass::X32)]),
        ("FSET"@, seq![(0x5800000000000000u64, InstrClass::Shft)]),
        ("FSETP"@, seq![(0x5bb0000000000000u64, InstrClass::Cmp)]),
        ("FSWZADD"@, seq![(0x0u64, InstrClass::X32)]),
        ("HADD2"@, seq![(0x5d10000000000000u64, InstrClass::X32)]),
        ("HFMA2"@, seq![(0x5d00000000000000u64, InstrClass::X32)]),
        ("HMUL2"@, seq![(0x5d08000000000000u64, InstrClass::X32)]),
        ("HSETP2"@, seq![(0x5d20000000000000u64, InstrClass::Cmp)]),
        ("I2F"@, seq![(0x5cb8000000000000u64, InstrClass::Qtr)]),
        ("I2I"@, seq![(0x5ce0000000000000u64, InstrClass::Qtr)]),
        ("IADD"@, seq![(0x5c10000000000000u64, InstrClass::X32)]),
        ("IADD3"@, seq![(0x5cc0000000000000u64, InstrClass::X32)]),
        ("IADD32I"@, seq![(0x1c00000000000000u64, InstrClass::X32)]),
        ("ICMP"@, seq![(0x5b41000000000000u64, InstrClass::Cmp)]),
        ("IMAD"@, seq![(0x0u64, InstrClass::X32)]),
        ("IMADSP"@, seq![(0x0u64, InstrClass::X32)]),
        ("IMNMX"@, seq![(0x5c21000000000000u64, InstrClass::Shft)]),
        ("IMUL"@, seq![(0x0u64, InstrClass::X32)]),
        ("ISCADD"@, seq![(0x5c18000000000000u64, InstrClass::Shft)]),
        ("ISCADD32I"@, seq![(0x1400000000000000u64, InstrClass::Shft)]),
        ("ISET"@, seq![(0x5b51000000000000u64, InstrClass::Shft)]),
        ("ISETP"@, seq![(0x5b61000000000000u64, InstrClass::Cmp)]),
        ("JCAL"@, seq![(0xe220000000000040u64, InstrClass::X32)]),
        ("JMP"@, seq![(0x0u64, InstrClass::X32)]),
        ("JMX"@, seq![(0x0u64, InstrClass::X32)]),
        ("LD"@, seq![(0x8000000000000000u64, InstrClass::Gmem)]),
        ("LDC"@, seq![(0xef90000000000000u64, InstrClass::Gmem)]),
        ("LDG"@, seq![(0xeed0000000000000u64, InstrClass::Gmem)]),
        ("LDL"@, seq![(0xef40000000000000u64, InstrClass::Gmem)]),
        ("LDS"@, seq![(0xef48000000000000u64, InstrClass::Smem)]),
        ("LEA"@, seq![(0x5bd0000000000000u64, InstrClass::Cmp), (0x5bd7000000000000u64, InstrClass::Shft), (0x5bdf004000000000u64, InstrClass::Shft), (0xa07000000000000u64, InstrClass::Shft)]),
        ("LOP"@, seq![(0x5c40000000000000u64, InstrClass::X32)]),
        ("LOP3"@, seq![(0x5be7000000000000u64, InstrClass::X32), (0x3c00000000000000u64, InstrClass::X32)]),
        ("LOP32I"@, seq![(0x400000000000000u64, InstrClass::X32)]),
        ("MEMBAR"@, seq![(0xef98000000000000u64, InstrClass::X32)]),
        ("MOV"@, seq![(0x5c98078000000000u64, InstrClass::X32)]),
        ("MOV32I"@, seq![(0x10000000000f000u64, InstrClass::X32)]),
        ("MUFU"@, seq![(0x5080000000000000u64, InstrClass::Qtr)]),
        ("NOP"@, seq![(0x50b0000000000f00u64, InstrClass::X32)]),
        ("P2R"@, seq![(0x38e8000000000000u64, InstrClass::X32)]),
        ("PBK"@, seq![(0xe2a0000000000000u64, InstrClass::X32)]),
        ("PCNT"@, seq![(0xe2b0000000000000u64, InstrClass::X32)]),
        ("PEXIT"@, seq![(0x0u64, InstrClass::X32)]),
        ("POPC"@, seq![(0x5c08000000000000u64, InstrClass::S2r)]),
        ("PRET"@, seq![(0x0u64, InstrClass::X32)]),
        ("PRMT"@, seq![(0x5bc0000000000000u64, InstrClass::X32)]),
        ("PSET"@, seq![(0x5088000000000000u64, InstrClass::Cmp)]),
        ("PSETP"@, seq![(0x5090000000000000u64, InstrClass::Cmp)]),
        ("R2B"@, seq![(0x0u64, InstrClass::X32)]),
        ("R2P"@, seq![(0x38f0000000000000u64, InstrClass::Shft)]),
        ("RED"@, seq![(0xebf8000000000000u64, InstrClass::Gmem)]),
        ("RET"@, seq![(0xe32000000000000fu64, InstrClass::X32)]),
        ("RRO"@, seq![(0x5c90000000000000u64, InstrClass::Rro)]),
        ("S2R"@, seq![(0xf0c8000000000000u64, InstrClass::S2r)]),
        ("SEL"@, seq![(0x5ca0000000000000u64, InstrClass::X32)]),
        ("SHF"@, seq![(0x5bf8000000000000u64, InstrClass::Shft), (0x5cf8000000000000u64, InstrClass::Shft)]),
        ("SHFL"@, seq![(0xef10000000000000u64, InstrClass::Smem)]),
        ("SHL"@, seq![(0x5c48000000000000u64, InstrClass::Shft)]),
        ("SHR"@, seq![(0x5c29000000000000u64, InstrClass::Shft)]),
        ("SSY"@, seq![(0xe290000000000000u64, InstrClass::X32)]),
        ("ST"@, seq![(0xa000000000000000u64, InstrClass::Gmem)]),
        ("STG"@, seq![(0xeed8000000000000u64, InstrClass::Gmem)]),
        ("STL"@, seq![(0xef50000000000000u64, InstrClass::Gmem)]),
        ("STS"@, seq![(0xef58000000000000u64, InstrClass::Smem)]),
        ("SUATOM"@, seq![(0x0u64, InstrClass::X32)]),
        ("SULD"@, seq![(0x0u64, InstrClass::X32)]),
        ("SURED"@, seq![(0x0u64, InstrClass::X32)]),
        ("SUST"@, seq![(0x0u64, InstrClass::X32)]),
        ("SYNC"@, seq![(0xf0f800000000000fu64, InstrClass::X32)]),
        ("TEX"@, seq![(0x0u64, InstrClass::Gmem)]),
        ("TEXS"@, seq![(0x0u64, InstrClass::Gmem)]),
        ("TLD"@, seq![(0xdd38000000000000u64, InstrClass::Gmem)]),
        ("TLD4"@, seq![(0x0u64, InstrClass::Gmem)]),
        ("TLD4S"@, seq![(0x0u64, InstrClass::Gmem)]),
        ("TLDS"@, seq![(0xda0000000ff00000u64, InstrClass::Gmem)]),
        ("TXQ"@, seq![(0x0u64, InstrClass::Gmem)]),
        ("VABSDIFF"@, seq![(0x5427000000000000u64, InstrClass::Shft)]),
        ("VADD"@, seq![(0x2044000000000000u64, InstrClass::Shft)]),
        ("VMAD"@, seq![(0x5f04000000000000u64, InstrClass::X32), (0x5f04000000000000u64, InstrClass::Shft)]),
        ("VMNMX"@, seq![(0x3a44000000000000u64, InstrClass::Shft)]),
        ("VOTE"@, seq![(0x50d8000000000000u64, InstrClass::Vote)]),
        ("VSET"@, seq![(0x4004000000000000u64, InstrClass::Shft)]),
        ("XMAD"@, seq![(0x5b00000000000000u64, InstrClass::X32), (0x5900000000000000u64, InstrClass::X32), (0x5e00000000000000u64, InstrClass::X32)]),
    ]
}

/// The opcode and the code and class of every encoding of a grammar entry.
pub open spec fn entry_shape(e: (&'static str, Vec<GrammarEltBase>)) -> (Seq<char>, Seq<(u64, InstrClass)>) {
    (e.0@, e.1@.map_values(|g: GrammarEltBase| (g.code, g.itype)))
}

/// The rule texts of each opcode's encodings, in grammar order.
pub open spec fn grammar_rule_texts() -> Seq<Seq<Seq<char>>> {
    seq![
        seq![r#"(?^:^(?^:\@(?<predNot>\!)?P(?<predNum>[0-6]) )?ATOM(?^:(?<E>\.E)?(?:\.(?<mode>ADD|MIN|MAX|INC|DEC|AND|OR|XOR|EXCH|CAS))(?<type>|\.S32|\.U64|\.F(?:16x2|32)\.FTZ\.RN|\.S64|\.64)) (?^:(?<r0>(?^:[a-zA-Z_]\w*))), (?^:\[(?:(?<r8>(?^:[a-zA-Z_]\w*))|(?<nor8>))(?:\s*\+?\s*(?^:(?<i28w20>\-?(?^:(?^:0[xX][0-9a-fA-F]+)|(?^:\d+[xX]<[^>]+>)|\d+))))?\]), (?^:(?<r20neg>\-)?(?<r20abs>\|)?(?<r20>(?^:[a-zA-Z_]\w*))\|?(?:\.(?<r20part>H0|H1|B0|B1|B2|B3|H0_H0|H1_H1))?(?<reuse2>\.reuse)?)(?:, (?^:(?<r39a>(?<r39>(?^:[a-zA-Z_]\w*)))(?<reuse3>\.reuse)?))?;)"#@],
        seq![r#"(?^:^(?^:\@(?<predNot>\!)?P(?<predNum>[0-6]) )?ATOMS(?^:(?<E>\.E)?(?:\.(?<mode>ADD|MIN|MAX|INC|DEC|AND|OR|XOR|EXCH|CAS))(?<type>|\.S32|\.U64|\.F(?:16x2|32)\.FTZ\.RN|\.S64|\.64)) (?^:(?<r0>(?^:[a-zA-Z_]\w*))), (?^:\[(?:(?<r8>(?^:[a-zA-Z_]\w*))|(?<nor8>))(?:\s*\+?\s*(?^:(?<i28w20>\-?(?^:(?^:0[xX][0-9a-fA-F]+)|(?^:\d+[xX]<[^>]+>)|\d+))))?\]), (?^:(?<r20neg>\-)?(?<r20abs>\|)?(?<r20>(?^:[a-zA-Z_]\w*))\|?(?:\.(?<r20part>H0|H1|B0|B1|B2|B3|H0_H0|H1_H1))?(?<reuse2>\.reuse)?)(?:, (?^:(?<r39a>(?<r39>(?^:[a-zA-Z_]\w*)))(?<reuse3>\.reuse)?))?;)"#@],
        seq![r#"(?^:^(?^:\@(?<predNot>\!)?P(?<predNum>[0-6]) )?B2R(?^:\.RESULT (?^:(?<r0>(?^:[a-zA-Z_]\w*)))(?:, (?^:(?<p45>(?^:P[0-6T])))|(?<nop45>)));)"#@],
        seq![r#"(?^:^(?^:\@(?<predNot>\!)?P(?<predNum>[0-6]) )?BAR(?^:\.(?<mode>SYNC|ARV|RED)(?:\.(?<red>POPC|AND|OR))? (?:(?^:(?<i8w4>(?^:(?^:0[xX][0-9a-fA-F]+)|(?^:\d+[xX]<[^>]+>)|\d+)))|(?^:(?<r8neg>\-)?(?<r8abs>\|)?(?<r8>(?^:[a-zA-Z_]\w*))\|?(?:\.(?<r8part>H0|H1|B0|B1|B2|B3|H0_H0|H1_H1|F32))?(?<reuse1>\.reuse)?))(?:, (?:(?^:(?<i20w12>(?^:(?^:0[xX][0-9a-fA-F]+)|(?^:\d+[xX]<[^>]+>)|\d+)))|(?^:(?<r20neg>\-)?(?<r20abs>\|)?(?<r20>(?^:[a-zA-Z_]\w*))\|?(?:\.(?<r20part>H0|H1|B0|B1|B2|B3|H0_H0|H1_H1))?(?<reuse2>\.reuse)?)))?(?(<r20>)|(?<nor20>))(?(<red>), (?^:(?<p39not>\!)?(?<p39>(?^:P[0-6T])))|(?<nop39>)));)"#@],
        seq![r#"(?^:^(?^:\@(?<predNot>\!)?P(?<predNum>[0-6]) )?BFE(?^:(?<U32>\.U32)?) (?^:(?<r0>(?^:[a-zA-Z_]\w*))), (?^:(?<r8neg>\-)?(?<r8abs>\|)?(?<r8>(?^:[a-zA-Z_]\w*))\|?(?:\.(?<r8part>H0|H1|B0|B1|B2|B3|H0_H0|H1_H1|F32))?(?<reuse1>\.reuse)?), (?^:(?^:(?<i20>(?<neg>\-)?(?^:(?^:0[xX][0-9a-fA-F]+)|(?^:\d+[xX]<[^>]+>)|\d+))(?<r20neg>\.NEG)?)|(?^:(?<r20neg>\-)?(?<r20abs>\|)?c\[(?<c34>(?^:0[xX][0-9a-fA-F]+))\]\s*\[(?<c20>(?^:0[xX][0-9a-fA-F]+))\]\|?(?:\.(?<r20part>H0|H1|B0|B1|B2|B3))?)|(?^:(?<r20neg>\-)?(?<r20abs>\|)?(?<r20>(?^:[a-zA-Z_]\w*))\|?(?:\.(?<r20part>H0|H1|B0|B1|B2|B3|H0_H0|H1_H1))?(?<reuse2>\.reuse)?));)"#@],
        seq![r#"(?^:^(?^:\@(?<predNot>\!)?P(?<predNum>[0-6]) )?BFI (?^:(?<r0>(?^:[a-zA-Z_]\w*))), (?^:(?<r8neg>\-)?(?<r8abs>\|)?(?<r8>(?^:[a-zA-Z_]\w*))\|?(?:\.(?<r8part>H0|H1|B0|B1|B2|B3|H0_H0|H1_H1|F32))?(?<reuse1>\.reuse)?), (?^:(?^:(?<i20>(?<neg>\-)?(?^:(?^:0[xX][0-9a-fA-F]+)|(?^:\d+[xX]<[^>]+>)|\d+))(?<r20neg>\.NEG)?)|(?^:(?<r20neg>\-)?(?<r20abs>\|)?(?<r20>(?^:[a-zA-Z_]\w*))\|?(?:\.(?<r20part>H0|H1|B0|B1|B2|B3|H0_H0|H1_H1))?(?<reuse2>\.reuse)?)), (?^:(?^:(?<r39neg>\-)?c\[(?<c34>(?^:0[xX][0-9a-fA-F]+))\]\s*\[(?<c39>(?^:0[xX][0-9a-fA-F]+))\])|(?^:(?<r39neg>\-)?(?<r39>(?^:[a-zA-Z_]\w*))(?:\.(?<r39part>H0|H1|H0_H0|H1_H1|F32))?(?<reuse3>\.reuse)?));)"#@],
        seq![r#"(?^:^(?^:(?<noPred>))?BPT\.TRAP (?^:(?<i20w24>\-?(?^:(?^:0[xX][0-9a-fA-F]+)|(?^:\d+[xX]<[^>]+>)|\d+)));)"#@],
        seq![r#"(?^:^(?^:\@(?<predNot>\!)?P(?<predNum>[0-6]) )?BRA(?<U>\.U)? (?^:(?<i20w24>\-?(?^:(?^:0[xX][0-9a-fA-F]+)|(?^:\d+[xX]<[^>]+>)|\d+)));)"#@, r#"(?^:^(?^:\@(?<predNot>\!)?P(?<predNum>[0-6]) )?BRA(?<U>\.U)? CC\.EQ, (?^:(?<i20w24>\-?(?^:(?^:0[xX][0-9a-fA-F]+)|(?^:\d+[xX]<[^>]+>)|\d+)));)"#@],
        seq![r#"(?^:^(?^:\@(?<predNot>\!)?P(?<predNum>[0-6]) )?BRK;)"#@],
        seq![r#"(?^:^(?^:\@(?<predNot>\!)?P(?<predNum>[0-6]) )?BRX[^;]*;)"#@],
        seq![r#"(?^:^(?^:(?<noPred>))?CAL (?^:(?<i20w24>\-?(?^:(?^:0[xX][0-9a-fA-F]+)|(?^:\d+[xX]<[^>]+>)|\d+)));)"#@],
        seq![r#"(?^:^(?^:\@(?<predNot>\!)?P(?<predNum>[0-6]) )?CCTL[^;]*;)"#@],
        seq![r#"(?^:^(?^:\@(?<predNot>\!)?P(?<predNum>[0-6]) )?CCTLL[^;]*;)"#@],
        seq![r#"(?^:^(?^:\@(?<predNot>\!)?P(?<predNum>[0-6]) )?CCTLT[^;]*;)"#@],
        seq![r#"(?^:^(?^:\@(?<predNot>\!)?P(?<predNum>[0-6]) )?CONT;)"#@],
        seq![r#"(?^:^(?^:\@(?<predNot>\!)?P(?<predNum>[0-6]) )?CS2R (?^:(?<r0>(?^:[a-zA-Z_]\w*))), (?^:SR_(?<sr>\S+));)"#@],
        seq![r#"(?^:^(?^:\@(?<predNot>\!)?P(?<predNum>[0-6]) )?CSET[^;]*;)"#@],
        seq![r#"(?^:^(?^:\@(?<predNot>\!)?P(?<predNum>[0-6]) )?CSETP[^;]*;)"#@],
        seq![r#"(?^:^(?^:\@(?<predNot>\!)?P(?<predNum>[0-6]) )?DADD(?^:(?:\.(?<rnd>RN|RM|RP|RZ))?) (?^:(?<r0>(?^:[a-zA-Z_]\w*))), (?^:(?<r8neg>\-)?(?<r8abs>\|)?(?<r8>(?^:[a-zA-Z_]\w*))\|?(?:\.(?<r8part>H0|H1|B0|B1|B2|B3|H0_H0|H1_H1|F32))?(?<reuse1>\.reuse)?), (?^:(?^:(?<d20>(?:(?<neg>\-)|\+|)(?i:inf\s*|\d+(?:\.\d+(?:e[\+\-]\d+)?)?))(?<r20neg>\.NEG)?)|(?^:(?<r20neg>\-)?(?<r20abs>\|)?(?<r20>(?^:[a-zA-Z_]\w*))\|?(?:\.(?<r20part>H0|H1|B0|B1|B2|B3|H0_H0|H1_H1))?(?<reuse2>\.reuse)?));)"#@],
        seq![r#"(?^:^(?^:\@(?<predNot>\!)?P(?<predNum>[0-6]) )?DEPBAR(?^:\.(?<cmp>LT|EQ|LE|GT|NE|GE)) (?^:(?<SB>SB0|SB1|SB2|SB3|SB4|SB5)), (?^:(?<i20w6>(?^:(?^:0[xX][0-9a-fA-F]+)|(?^:\d+[xX]<[^>]+>)|\d+)));)"#@, r#"(?^:^(?^:\@(?<predNot>\!)?P(?<predNum>[0-6]) )?DEPBAR(?^: \{(?<db5>5)?,?(?<db4>4)?,?(?<db3>3)?,?(?<db2>2)?,?(?<db1>1)?,?(?<db0>0)?\});)"#@],
        seq![r#"(?^:^(?^:\@(?<predNot>\!)?P(?<predNum>[0-6]) )?DFMA(?^:(?:\.(?<rnd>RN|RM|RP|RZ))?) (?^:(?<r0>(?^:[a-zA-Z_]\w*))), (?^:(?<r8neg>\-)?(?<r8abs>\|)?(?<r8>(?^:[a-zA-Z_]\w*))\|?(?:\.(?<r8part>H0|H1|B0|B1|B2|B3|H0_H0|H1_H1|F32))?(?<reuse1>\.reuse)?), (?^:(?^:(?<d20>(?:(?<neg>\-)|\+|)(?i:inf\s*|\d+(?:\.\d+(?:e[\+\-]\d+)?)?))(?<r20neg>\.NEG)?)|(?^:(?<r20neg>\-)?(?<r20abs>\|)?(?<r20>(?^:[a-zA-Z_]\w*))\|?(?:\.(?<r20part>H0|H1|B0|B1|B2|B3|H0_H0|H1_H1))?(?<reuse2>\.reuse)?)), (?^:(?<r39neg>\-)?(?<r39>(?^:[a-zA-Z_]\w*))(?:\.(?<r39part>H0|H1|H0_H0|H1_H1|F32))?(?<reuse3>\.reuse)?);)"#@],
        seq![r#"(?^:^(?^:\@(?<predNot>\!)?P(?<predNum>[0-6]) )?DMNMX (?^:(?<r0>(?^:[a-zA-Z_]\w*))), (?^:(?<r8neg>\-)?(?<r8abs>\|)?(?<r8>(?^:[a-zA-Z_]\w*))\|?(?:\.(?<r8part>H0|H1|B0|B1|B2|B3|H0_H0|H1_H1|F32))?(?<reuse1>\.reuse)?), (?^:(?^:(?<d20>(?:(?<neg>\-)|\+|)(?i:inf\s*|\d+(?:\.\d+(?:e[\+\-]\d+)?)?))(?<r20neg>\.NEG)?)|(?^:(?<r20neg>\-)?(?<r20abs>\|)?(?<r20>(?^:[a-zA-Z_]\w*))\|?(?:\.(?<r20part>H0|H1|B0|B1|B2|B3|H0_H0|H1_H1))?(?<reuse2>\.reuse)?)), (?^:(?<p39not>\!)?(?<p39>(?^:P[0-6T])));)"#@],
        seq![r#"(?^:^(?^:\@(?<predNot>\!)?P(?<predNum>[0-6]) )?DMUL(?^:(?:\.(?<rnd>RN|RM|RP|RZ))?) (?^:(?<r0>(?^:[a-zA-Z_]\w*))), (?^:(?<r8neg>\-)?(?<r8abs>\|)?(?<r8>(?^:[a-zA-Z_]\w*))\|?(?:\.(?<r8part>H0|H1|B0|B1|B2|B3|H0_H0|H1_H1|F32))?(?<reuse1>\.reuse)?), (?^:(?^:(?<d20>(?:(?<neg>\-)|\+|)(?i:inf\s*|\d+(?:\.\d+(?:e[\+\-]\d+)?)?))(?<r20neg>\.NEG)?)|(?^:(?<r20neg>\-)?(?<r20abs>\|)?(?<r20>(?^:[a-zA-Z_]\w*))\|?(?:\.(?<r20part>H0|H1|B0|B1|B2|B3|H0_H0|H1_H1))?(?<reuse2>\.reuse)?));)"#@],
        seq![r#"(?^:^(?^:\@(?<predNot>\!)?P(?<predNum>[0-6]) )?DP2A(?^:\.(?<mode>LO|HI))(?^:(?:\.(?<type1>U32|S32))?(?:\.(?<type2>U32|S32))?) (?^:(?<r0>(?^:[a-zA-Z_]\w*))), (?^:(?<r8neg>\-)?(?<r8abs>\|)?(?<r8>(?^:[a-zA-Z_]\w*))\|?(?:\.(?<r8part>H0|H1|B0|B1|B2|B3|H0_H0|H1_H1|F32))?(?<reuse1>\.reuse)?), (?^:(?^:(?<i20>(?<neg>\-)?(?^:(?^:0[xX][0-9a-fA-F]+)|(?^:\d+[xX]<[^>]+>)|\d+))(?<r20neg>\.NEG)?)|(?^:(?<r20neg>\-)?(?<r20abs>\|)?c\[(?<c34>(?^:0[xX][0-9a-fA-F]+))\]\s*\[(?<c20>(?^:0[xX][0-9a-fA-F]+))\]\|?(?:\.(?<r20part>H0|H1|B0|B1|B2|B3))?)|(?^:(?<r20neg>\-)?(?<r20abs>\|)?(?<r20>(?^:[a-zA-Z_]\w*))\|?(?:\.(?<r20part>H0|H1|B0|B1|B2|B3|H0_H0|H1_H1))?(?<reuse2>\.reuse)?)), (?^:(?<r39neg>\-)?(?<r39>(?^:[a-zA-Z_]\w*))(?:\.(?<r39part>H0|H1|H0_H0|H1_H1|F32))?(?<reuse3>\.reuse)?);)"#@],
        seq![r#"(?^:^(?^:\@(?<predNot>\!)?P(?<predNum>[0-6]) )?DP4A(?^:(?:\.(?<type1>U32|S32))?(?:\.(?<type2>U32|S32))?) (?^:(?<r0>(?^:[a-zA-Z_]\w*))), (?^:(?<r8neg>\-)?(?<r8abs>\|)?(?<r8>(?^:[a-zA-Z_]\w*))\|?(?:\.(?<r8part>H0|H1|B0|B1|B2|B3|H0_H0|H1_H1|F32))?(?<reuse1>\.reuse)?), (?^:(?^:(?<i20>(?<neg>\-)?(?^:(?^:0[xX][0-9a-fA-F]+)|(?^:\d+[xX]<[^>]+>)|\d+))(?<r20neg>\.NEG)?)|(?^:(?<r20neg>\-)?(?<r20abs>\|)?c\[(?<c34>(?^:0[xX][0-9a-fA-F]+))\]\s*\[(?<c20>(?^:0[xX][0-9a-fA-F]+))\]\|?(?:\.(?<r20part>H0|H1|B0|B1|B2|B3))?)|(?^:(?<r20neg>\-)?(?<r20abs>\|)?(?<r20>(?^:[a-zA-Z_]\w*))\|?(?:\.(?<r20part>H0|H1|B0|B1|B2|B3|H0_H0|H1_H1))?(?<reuse2>\.reuse)?)), (?^:(?<r39neg>\-)?(?<r39>(?^:[a-zA-Z_]\w*))(?:\.(?<r39part>H0|H1|H0_H0|H1_H1|F32))?(?<reuse3>\.reuse)?);)"#@],
        seq![r#"(?^:^(?^:\@(?<predNot>\!)?P(?<predNum>[0-6]) )?DSET(?^:(?<cmp>\.LT|\.EQ|\.LE|\.GT|\.NE|\.GE|\.NUM|\.NAN|\.LTU|\.EQU|\.LEU|\.GTU|\.NEU|\.GEU|))(?^:\.(?<bool>AND|OR|XOR|PASS_B)) (?^:(?<r0>(?^:[a-zA-Z_]\w*))), (?^:(?<r8neg>\-)?(?<r8abs>\|)?(?<r8>(?^:[a-zA-Z_]\w*))\|?(?:\.(?<r8part>H0|H1|B0|B1|B2|B3|H0_H0|H1_H1|F32))?(?<reuse1>\.reuse)?), (?^:(?^:(?<d20>(?:(?<neg>\-)|\+|)(?i:inf\s*|\d+(?:\.\d+(?:e[\+\-]\d+)?)?))(?<r20neg>\.NEG)?)|(?^:(?<r20neg>\-)?(?<r20abs>\|)?(?<r20>(?^:[a-zA-Z_]\w*))\|?(?:\.(?<r20part>H0|H1|B0|B1|B2|B3|H0_H0|H1_H1))?(?<reuse2>\.reuse)?)), (?^:(?<p39not>\!)?(?<p39>(?^:P[0-6T])));)"#@],
        seq![r#"(?^:^(?^:\@(?<predNot>\!)?P(?<predNum>[0-6]) )?DSETP(?^:(?<cmp>\.LT|\.EQ|\.LE|\.GT|\.NE|\.GE|\.NUM|\.NAN|\.LTU|\.EQU|\.LEU|\.GTU|\.NEU|\.GEU|))(?^:\.(?<bool>AND|OR|XOR|PASS_B)) (?^:(?<p3>(?^:P[0-6T]))), (?^:(?<p0>(?^:P[0-6T]))), (?^:(?<r8neg>\-)?(?<r8abs>\|)?(?<r8>(?^:[a-zA-Z_]\w*))\|?(?:\.(?<r8part>H0|H1|B0|B1|B2|B3|H0_H0|H1_H1|F32))?(?<reuse1>\.reuse)?), (?^:(?^:(?<d20>(?:(?<neg>\-)|\+|)(?i:inf\s*|\d+(?:\.\d+(?:e[\+\-]\d+)?)?))(?<r20neg>\.NEG)?)|(?^:(?<r20neg>\-)?(?<r20abs>\|)?(?<r20>(?^:[a-zA-Z_]\w*))\|?(?:\.(?<r20part>H0|H1|B0|B1|B2|B3|H0_H0|H1_H1))?(?<reuse2>\.reuse)?)), (?^:(?<p39not>\!)?(?<p39>(?^:P[0-6T])));)"#@],
        seq![r#"(?^:^(?^:\@(?<predNot>\!)?P(?<predNum>[0-6]) )?EXIT;)"#@],
        seq![r#"(?^:^(?^:\@(?<predNot>\!)?P(?<predNum>[0-6]) )?F2F(?^:(?<FTZ>\.FTZ)?)(?^:\.(?<destSign>F|U|S)(?<destWidth>8|16|32|64)\.(?<srcSign>F|U|S)(?<srcWidth>8|16|32|64))(?^:(?:\.(?<rnd>RN|RM|RP|RZ))?)(?^:(?:\.(?<round>ROUND|FLOOR|CEIL|TRUNC))?)(?^:(?<SAT>\.SAT)?) (?^:(?<r0>(?^:[a-zA-Z_]\w*))), (?^:(?^:(?<r20neg>\-)?(?<r20abs>\|)?c\[(?<c34>(?^:0[xX][0-9a-fA-F]+))\]\s*\[(?<c20>(?^:0[xX][0-9a-fA-F]+))\]\|?(?:\.(?<r20part>H0|H1|B0|B1|B2|B3))?)|(?^:(?<r20neg>\-)?(?<r20abs>\|)?(?<r20>(?^:[a-zA-Z_]\w*))\|?(?:\.(?<r20part>H0|H1|B0|B1|B2|B3|H0_H0|H1_H1))?(?<reuse2>\.reuse)?));)"#@],
        seq![r#"(?^:^(?^:\@(?<predNot>\!)?P(?<predNum>[0-6]) )?F2I(?^:(?<FTZ>\.FTZ)?)(?^:\.(?<destSign>F|U|S)(?<destWidth>8|16|32|64)\.(?<srcSign>F|U|S)(?<srcWidth>8|16|32|64))(?^:(?:\.(?<round>ROUND|FLOOR|CEIL|TRUNC))?) (?^:(?<r0>(?^:[a-zA-Z_]\w*))), (?^:(?^:(?<r20neg>\-)?(?<r20abs>\|)?c\[(?<c34>(?^:0[xX][0-9a-fA-F]+))\]\s*\[(?<c20>(?^:0[xX][0-9a-fA-F]+))\]\|?(?:\.(?<r20part>H0|H1|B0|B1|B2|B3))?)|(?^:(?<r20neg>\-)?(?<r20abs>\|)?(?<r20>(?^:[a-zA-Z_]\w*))\|?(?:\.(?<r20part>H0|H1|B0|B1|B2|B3|H0_H0|H1_H1))?(?<reuse2>\.reuse)?));)"#@],
        seq![r#"(?^:^(?^:\@(?<predNot>\!)?P(?<predNum>[0-6]) )?FADD(?^:(?<FTZ>\.FTZ)?)(?^:(?:\.(?<rnd>RN|RM|RP|RZ))?)(?^:(?<SAT>\.SAT)?) (?^:(?<r0>(?^:[a-zA-Z_]\w*))), (?^:(?<r8neg>\-)?(?<r8abs>\|)?(?<r8>(?^:[a-zA-Z_]\w*))\|?(?:\.(?<r8part>H0|H1|B0|B1|B2|B3|H0_H0|H1_H1|F32))?(?<reuse1>\.reuse)?), (?^:(?^:(?<f20>(?:(?<neg>\-)|\+|)(?i:inf\s*|\d+(?:\.\d+(?:e[\+\-]\d+)?)?))(?<r20neg>\.NEG)?)|(?^:(?<r20neg>\-)?(?<r20abs>\|)?c\[(?<c34>(?^:0[xX][0-9a-fA-F]+))\]\s*\[(?<c20>(?^:0[xX][0-9a-fA-F]+))\]\|?(?:\.(?<r20part>H0|H1|B0|B1|B2|B3))?)|(?^:(?<r20neg>\-)?(?<r20abs>\|)?(?<r20>(?^:[a-zA-Z_]\w*))\|?(?:\.(?<r20part>H0|H1|B0|B1|B2|B3|H0_H0|H1_H1))?(?<reuse2>\.reuse)?));)"#@],
        seq![r#"(?^:^(?^:\@(?<predNot>\!)?P(?<predNum>[0-6]) )?FADD32I(?^:(?<FTZ>\.FTZ)?) (?^:(?<r0>(?^:[a-zA-Z_]\w*))), (?^:(?<r8neg>\-)?(?<r8abs>\|)?(?<r8>(?^:[a-zA-Z_]\w*))\|?(?:\.(?<r8part>H0|H1|B0|B1|B2|B3|H0_H0|H1_H1|F32))?(?<reuse1>\.reuse)?), (?^:(?<f20w32>(?:\-|\+|)(?i:(?^:0[xX][0-9a-fA-F]+)|inf\s*|\d+(?:\.\d+(?:e[\+\-]\d+)?)?)));)"#@],
        seq![r#"(?^:^(?^:\@(?<predNot>\!)?P(?<predNum>[0-6]) )?FCHK\.DIVIDE (?^:(?<p0>(?^:P[0-6T]))), (?^:(?<r8neg>\-)?(?<r8abs>\|)?(?<r8>(?^:[a-zA-Z_]\w*))\|?(?:\.(?<r8part>H0|H1|B0|B1|B2|B3|H0_H0|H1_H1|F32))?(?<reuse1>\.reuse)?), (?^:(?<r20neg>\-)?(?<r20abs>\|)?(?<r20>(?^:[a-zA-Z_]\w*))\|?(?:\.(?<r20part>H0|H1|B0|B1|B2|B3|H0_H0|H1_H1))?(?<reuse2>\.reuse)?);)"#@],
        seq![r#"(?^:^(?^:\@(?<predNot>\!)?P(?<predNum>[0-6]) )?FCMP(?^:(?<cmp>\.LT|\.EQ|\.LE|\.GT|\.NE|\.GE|\.NUM|\.NAN|\.LTU|\.EQU|\.LEU|\.GTU|\.NEU|\.GEU|))(?^:(?<FTZ>\.FTZ)?) (?^:(?<r0>(?^:[a-zA-Z_]\w*))), (?^:(?<r8neg>\-)?(?<r8abs>\|)?(?<r8>(?^:[a-zA-Z_]\w*))\|?(?:\.(?<r8part>H0|H1|B0|B1|B2|B3|H0_H0|H1_H1|F32))?(?<reuse1>\.reuse)?), (?^:(?^:(?<f20>(?:(?<neg>\-)|\+|)(?i:inf\s*|\d+(?:\.\d+(?:e[\+\-]\d+)?)?))(?<r20neg>\.NEG)?)|(?^:(?<r20neg>\-)?(?<r20abs>\|)?c\[(?<c34>(?^:0[xX][0-9a-fA-F]+))\]\s*\[(?<c20>(?^:0[xX][0-9a-fA-F]+))\]\|?(?:\.(?<r20part>H0|H1|B0|B1|B2|B3))?)|(?^:(?<r20neg>\-)?(?<r20abs>\|)?(?<r20>(?^:[a-zA-Z_]\w*))\|?(?:\.(?<r20part>H0|H1|B0|B1|B2|B3|H0_H0|H1_H1))?(?<reuse2>\.reuse)?)), (?^:(?<r39neg>\-)?(?<r39>(?^:[a-zA-Z_]\w*))(?:\.(?<r39part>H0|H1|H0_H0|H1_H1|F32))?(?<reuse3>\.reuse)?);)"#@],
        seq![r#"(?^:^(?^:\@(?<predNot>\!)?P(?<predNum>[0-6]) )?FFMA(?^:(?<FTZ>\.FTZ)?)(?^:(?:\.(?<rnd>RN|RM|RP|RZ))?)(?^:(?<SAT>\.SAT)?) (?^:(?<r0>(?^:[a-zA-Z_]\w*))), (?^:(?<r8neg>\-)?(?<r8abs>\|)?(?<r8>(?^:[a-zA-Z_]\w*))\|?(?:\.(?<r8part>H0|H1|B0|B1|B2|B3|H0_H0|H1_H1|F32))?(?<reuse1>\.reuse)?), (?^:(?^:(?<f20>(?:(?<neg>\-)|\+|)(?i:inf\s*|\d+(?:\.\d+(?:e[\+\-]\d+)?)?))(?<r20neg>\.NEG)?)|(?^:(?<r20neg>\-)?(?<r20abs>\|)?c\[(?<c34>(?^:0[xX][0-9a-fA-F]+))\]\s*\[(?<c20>(?^:0[xX][0-9a-fA-F]+))\]\|?(?:\.(?<r20part>H0|H1|B0|B1|B2|B3))?)|(?^:(?<r20neg>\-)?(?<r20abs>\|)?(?<r20>(?^:[a-zA-Z_]\w*))\|?(?:\.(?<r20part>H0|H1|B0|B1|B2|B3|H0_H0|H1_H1))?(?<reuse2>\.reuse)?)), (?^:(?<r39neg>\-)?(?<r39>(?^:[a-zA-Z_]\w*))(?:\.(?<r39part>H0|H1|H0_H0|H1_H1|F32))?(?<reuse3>\.reuse)?);)"#@, r#"(?^:^(?^:\@(?<predNot>\!)?P(?<predNum>[0-6]) )?FFMA(?^:(?<FTZ>\.FTZ)?)(?^:(?:\.(?<rnd>RN|RM|RP|RZ))?)(?^:(?<SAT>\.SAT)?) (?^:(?<r0>(?^:[a-zA-Z_]\w*))), (?^:(?<r8neg>\-)?(?<r8abs>\|)?(?<r8>(?^:[a-zA-Z_]\w*))\|?(?:\.(?<r8part>H0|H1|B0|B1|B2|B3|H0_H0|H1_H1|F32))?(?<reuse1>\.reuse)?), (?^:(?<r20neg>\-)?(?<r20abs>\|)?(?<r39s20>(?<r20>(?^:[a-zA-Z_]\w*)))\|?(?:\.(?<r39part>H0|H1))?(?<reuse2>\.reuse)?), (?^:(?<r39neg>\-)?c\[(?<c34>(?^:0[xX][0-9a-fA-F]+))\]\s*\[(?<c39>(?^:0[xX][0-9a-fA-F]+))\]);)"#@],
        seq![r#"(?^:^(?^:\@(?<predNot>\!)?P(?<predNum>[0-6]) )?FLO\.U32 (?^:(?<r0>(?^:[a-zA-Z_]\w*))), (?^:(?^:(?<i20>(?<neg>\-)?(?^:(?^:0[xX][0-9a-fA-F]+)|(?^:\d+[xX]<[^>]+>)|\d+))(?<r20neg>\.NEG)?)|(?^:(?<r20neg>\-)?(?<r20abs>\|)?c\[(?<c34>(?^:0[xX][0-9a-fA-F]+))\]\s*\[(?<c20>(?^:0[xX][0-9a-fA-F]+))\]\|?(?:\.(?<r20part>H0|H1|B0|B1|B2|B3))?)|(?^:(?<r20neg>\-)?(?<r20abs>\|)?(?<r20>(?^:[a-zA-Z_]\w*))\|?(?:\.(?<r20part>H0|H1|B0|B1|B2|B3|H0_H0|H1_H1))?(?<reuse2>\.reuse)?));)"#@],
        seq![r#"(?^:^(?^:\@(?<predNot>\!)?P(?<predNum>[0-6]) )?FMNMX(?^:(?<FTZ>\.FTZ)?) (?^:(?<r0>(?^:[a-zA-Z_]\w*))), (?^:(?<r8neg>\-)?(?<r8abs>\|)?(?<r8>(?^:[a-zA-Z_]\w*))\|?(?:\.(?<r8part>H0|H1|B0|B1|B2|B3|H0_H0|H1_H1|F32))?(?<reuse1>\.reuse)?), (?^:(?^:(?<f20>(?:(?<neg>\-)|\+|)(?i:inf\s*|\d+(?:\.\d+(?:e[\+\-]\d+)?)?))(?<r20neg>\.NEG)?)|(?^:(?<r20neg>\-)?(?<r20abs>\|)?c\[(?<c34>(?^:0[xX][0-9a-fA-F]+))\]\s*\[(?<c20>(?^:0[xX][0-9a-fA-F]+))\]\|?(?:\.(?<r20part>H0|H1|B0|B1|B2|B3))?)|(?^:(?<r20neg>\-)?(?<r20abs>\|)?(?<r20>(?^:[a-zA-Z_]\w*))\|?(?:\.(?<r20part>H0|H1|B0|B1|B2|B3|H0_H0|H1_H1))?(?<reuse2>\.reuse)?)), (?^:(?<p39not>\!)?(?<p39>(?^:P[0-6T])));)"#@],
        seq![r#"(?^:^(?^:\@(?<predNot>\!)?P(?<predNum>[0-6]) )?FMUL(?^:(?<FTZ>\.FTZ)?)(?^:(?:\.(?<rnd>RN|RM|RP|RZ))?)(?^:(?<SAT>\.SAT)?) (?^:(?<r0>(?^:[a-zA-Z_]\w*))), (?^:(?<r8neg>\-)?(?<r8abs>\|)?(?<r8>(?^:[a-zA-Z_]\w*))\|?(?:\.(?<r8part>H0|H1|B0|B1|B2|B3|H0_H0|H1_H1|F32))?(?<reuse1>\.reuse)?), (?^:(?^:(?<f20>(?:(?<neg>\-)|\+|)(?i:inf\s*|\d+(?:\.\d+(?:e[\+\-]\d+)?)?))(?<r20neg>\.NEG)?)|(?^:(?<r20neg>\-)?(?<r20abs>\|)?c\[(?<c34>(?^:0[xX][0-9a-fA-F]+))\]\s*\[(?<c20>(?^:0[xX][0-9a-fA-F]+))\]\|?(?:\.(?<r20part>H0|H1|B0|B1|B2|B3))?)|(?^:(?<r20neg>\-)?(?<r20abs>\|)?(?<r20>(?^:[a-zA-Z_]\w*))\|?(?:\.(?<r20part>H0|H1|B0|B1|B2|B3|H0_H0|H1_H1))?(?<reuse2>\.reuse)?));)"#@],
        seq![r#"(?^:^(?^:\@(?<predNot>\!)?P(?<predNum>[0-6]) )?FMUL32I(?^:(?<FTZ>\.FTZ)?) (?^:(?<r0>(?^:[a-zA-Z_]\w*))), (?^:(?<r8neg>\-)?(?<r8abs>\|)?(?<r8>(?^:[a-zA-Z_]\w*))\|?(?:\.(?<r8part>H0|H1|B0|B1|B2|B3|H0_H0|H1_H1|F32))?(?<reuse1>\.reuse)?), (?^:(?<f20w32>(?:\-|\+|)(?i:(?^:0[xX][0-9a-fA-F]+)|inf\s*|\d+(?:\.\d+(?:e[\+\-]\d+)?)?)));)"#@],
        seq![r#"(?^:^(?^:\@(?<predNot>\!)?P(?<predNum>[0-6]) )?FSET(?^:(?<cmp>\.LT|\.EQ|\.LE|\.GT|\.NE|\.GE|\.NUM|\.NAN|\.LTU|\.EQU|\.LEU|\.GTU|\.NEU|\.GEU|))(?^:(?<FTZ>\.FTZ)?)(?^:\.(?<bool>AND|OR|XOR|PASS_B)) (?^:(?<r0>(?^:[a-zA-Z_]\w*))), (?^:(?<r8neg>\-)?(?<r8abs>\|)?(?<r8>(?^:[a-zA-Z_]\w*))\|?(?:\.(?<r8part>H0|H1|B0|B1|B2|B3|H0_H0|H1_H1|F32))?(?<reuse1>\.reuse)?), (?^:(?^:(?<f20>(?:(?<neg>\-)|\+|)(?i:inf\s*|\d+(?:\.\d+(?:e[\+\-]\d+)?)?))(?<r20neg>\.NEG)?)|(?^:(?<r20neg>\-)?(?<r20abs>\|)?c\[(?<c34>(?^:0[xX][0-9a-fA-F]+))\]\s*\[(?<c20>(?^:0[xX][0-9a-fA-F]+))\]\|?(?:\.(?<r20part>H0|H1|B0|B1|B2|B3))?)|(?^:(?<r20neg>\-)?(?<r20abs>\|)?(?<r20>(?^:[a-zA-Z_]\w*))\|?(?:\.(?<r20part>H0|H1|B0|B1|B2|B3|H0_H0|H1_H1))?(?<reuse2>\.reuse)?)), (?^:(?<p39not>\!)?(?<p39>(?^:P[0-6T])));)"#@],
        seq![r#"(?^:^(?^:\@(?<predNot>\!)?P(?<predNum>[0-6]) )?FSETP(?^:(?<cmp>\.LT|\.EQ|\.LE|\.GT|\.NE|\.GE|\.NUM|\.NAN|\.LTU|\.EQU|\.LEU|\.GTU|\.NEU|\.GEU|))(?^:(?<FTZ>\.FTZ)?)(?^:\.(?<bool>AND|OR|XOR|PASS_B)) (?^:(?<p3>(?^:P[0-6T]))), (?^:(?<p0>(?^:P[0-6T]))), (?^:(?<r8neg>\-)?(?<r8abs>\|)?(?<r8>(?^:[a-zA-Z_]\w*))\|?(?:\.(?<r8part>H0|H1|B0|B1|B2|B3|H0_H0|H1_H1|F32))?(?<reuse1>\.reuse)?), (?^:(?^:(?<f20>(?:(?<neg>\-)|\+|)(?i:inf\s*|\d+(?:\.\d+(?:e[\+\-]\d+)?)?))(?<r20neg>\.NEG)?)|(?^:(?<r20neg>\-)?(?<r20abs>\|)?c\[(?<c34>(?^:0[xX][0-9a-fA-F]+))\]\s*\[(?<c20>(?^:0[xX][0-9a-fA-F]+))\]\|?(?:\.(?<r20part>H0|H1|B0|B1|B2|B3))?)|(?^:(?<r20neg>\-)?(?<r20abs>\|)?(?<r20>(?^:[a-zA-Z_]\w*))\|?(?:\.(?<r20part>H0|H1|B0|B1|B2|B3|H0_H0|H1_H1))?(?<reuse2>\.reuse)?)), (?^:(?<p39not>\!)?(?<p39>(?^:P[0-6T])));)"#@],
        seq![r#"(?^:^(?^:\@(?<predNot>\!)?P(?<predNum>[0-6]) )?FSWZADD[^;]*;)"#@],
        seq![r#"(?^:^(?^:\@(?<predNot>\!)?P(?<predNum>[0-6]) )?HADD2(?^:(?:\.(?<mode>F32|MRG_H0|MRG_H1))?(?^:(?<FTZ>\.FTZ)?))(?^:(?<FMZ>\.FMZ)?)(?^:(?<FTZ>\.FTZ)?)(?^:(?<SAT>\.SAT)?) (?^:(?<r0>(?^:[a-zA-Z_]\w*))), (?^:(?<r8neg>\-)?(?<r8abs>\|)?(?<r8>(?^:[a-zA-Z_]\w*))\|?(?:\.(?<r8part>H0|H1|B0|B1|B2|B3|H0_H0|H1_H1|F32))?(?<reuse1>\.reuse)?), (?^:(?<r20neg>\-)?(?<r20abs>\|)?(?<r20>(?^:[a-zA-Z_]\w*))\|?(?:\.(?<r20part>H0|H1|B0|B1|B2|B3|H0_H0|H1_H1))?(?<reuse2>\.reuse)?);)"#@],
        seq![r#"(?^:^(?^:\@(?<predNot>\!)?P(?<predNum>[0-6]) )?HFMA2(?^:(?:\.(?<mode>F32|MRG_H0|MRG_H1))?(?^:(?<FTZ>\.FTZ)?))(?^:(?<FMZ>\.FMZ)?)(?^:(?<FTZ>\.FTZ)?)(?^:(?<SAT>\.SAT)?) (?^:(?<r0>(?^:[a-zA-Z_]\w*))), (?^:(?<r8neg>\-)?(?<r8abs>\|)?(?<r8>(?^:[a-zA-Z_]\w*))\|?(?:\.(?<r8part>H0|H1|B0|B1|B2|B3|H0_H0|H1_H1|F32))?(?<reuse1>\.reuse)?), (?^:(?<r20neg>\-)?(?<r20abs>\|)?(?<r20>(?^:[a-zA-Z_]\w*))\|?(?:\.(?<r20part>H0|H1|B0|B1|B2|B3|H0_H0|H1_H1))?(?<reuse2>\.reuse)?), (?^:(?<r39neg>\-)?(?<r39>(?^:[a-zA-Z_]\w*))(?:\.(?<r39part>H0|H1|H0_H0|H1_H1|F32))?(?<reuse3>\.reuse)?);)"#@],
        seq![r#"(?^:^(?^:\@(?<predNot>\!)?P(?<predNum>[0-6]) )?HMUL2(?^:(?:\.(?<mode>F32|MRG_H0|MRG_H1))?(?^:(?<FTZ>\.FTZ)?))(?^:(?<FMZ>\.FMZ)?)(?^:(?<FTZ>\.FTZ)?)(?^:(?<SAT>\.SAT)?) (?^:(?<r0>(?^:[a-zA-Z_]\w*))), (?^:(?<r8neg>\-)?(?<r8abs>\|)?(?<r8>(?^:[a-zA-Z_]\w*))\|?(?:\.(?<r8part>H0|H1|B0|B1|B2|B3|H0_H0|H1_H1|F32))?(?<reuse1>\.reuse)?), (?^:(?<r20neg>\-)?(?<r20abs>\|)?(?<r20>(?^:[a-zA-Z_]\w*))\|?(?:\.(?<r20part>H0|H1|B0|B1|B2|B3|H0_H0|H1_H1))?(?<reuse2>\.reuse)?);)"#@],
        seq![r#"(?^:^(?^:\@(?<predNot>\!)?P(?<predNum>[0-6]) )?HSETP2(?^:(?<cmp>\.LT|\.EQ|\.LE|\.GT|\.NE|\.GE|\.NUM|\.NAN|\.LTU|\.EQU|\.LEU|\.GTU|\.NEU|\.GEU|))(?^:\.(?<bool>AND|OR|XOR|PASS_B)) (?^:(?<p3>(?^:P[0-6T]))), (?^:(?<p0>(?^:P[0-6T]))), (?^:(?<r8neg>\-)?(?<r8abs>\|)?(?<r8>(?^:[a-zA-Z_]\w*))\|?(?:\.(?<r8part>H0|H1|B0|B1|B2|B3|H0_H0|H1_H1|F32))?(?<reuse1>\.reuse)?), (?^:(?^:(?<f20>(?:(?<neg>\-)|\+|)(?i:inf\s*|\d+(?:\.\d+(?:e[\+\-]\d+)?)?))(?<r20neg>\.NEG)?)|(?^:(?<r20neg>\-)?(?<r20abs>\|)?c\[(?<c34>(?^:0[xX][0-9a-fA-F]+))\]\s*\[(?<c20>(?^:0[xX][0-9a-fA-F]+))\]\|?(?:\.(?<r20part>H0|H1|B0|B1|B2|B3))?)|(?^:(?<r20neg>\-)?(?<r20abs>\|)?(?<r20>(?^:[a-zA-Z_]\w*))\|?(?:\.(?<r20part>H0|H1|B0|B1|B2|B3|H0_H0|H1_H1))?(?<reuse2>\.reuse)?)), (?^:(?<p39not>\!)?(?<p39>(?^:P[0-6T])));)"#@],
        seq![r#"(?^:^(?^:\@(?<predNot>\!)?P(?<predNum>[0-6]) )?I2F(?^:\.(?<destSign>F|U|S)(?<destWidth>8|16|32|64)\.(?<srcSign>F|U|S)(?<srcWidth>8|16|32|64))(?^:(?:\.(?<rnd>RN|RM|RP|RZ))?) (?^:(?<r0>(?^:[a-zA-Z_]\w*))), (?^:(?^:(?<r20neg>\-)?(?<r20abs>\|)?c\[(?<c34>(?^:0[xX][0-9a-fA-F]+))\]\s*\[(?<c20>(?^:0[xX][0-9a-fA-F]+))\]\|?(?:\.(?<r20part>H0|H1|B0|B1|B2|B3))?)|(?^:(?<r20neg>\-)?(?<r20abs>\|)?(?<r20>(?^:[a-zA-Z_]\w*))\|?(?:\.(?<r20part>H0|H1|B0|B1|B2|B3|H0_H0|H1_H1))?(?<reuse2>\.reuse)?));)"#@],
        seq![r#"(?^:^(?^:\@(?<predNot>\!)?P(?<predNum>[0-6]) )?I2I(?^:\.(?<destSign>F|U|S)(?<destWidth>8|16|32|64)\.(?<srcSign>F|U|S)(?<srcWidth>8|16|32|64))(?^:(?<SAT>\.SAT)?) (?^:(?<r0>(?^:[a-zA-Z_]\w*))), (?^:(?^:(?<r20neg>\-)?(?<r20abs>\|)?c\[(?<c34>(?^:0[xX][0-9a-fA-F]+))\]\s*\[(?<c20>(?^:0[xX][0-9a-fA-F]+))\]\|?(?:\.(?<r20part>H0|H1|B0|B1|B2|B3))?)|(?^:(?<r20neg>\-)?(?<r20abs>\|)?(?<r20>(?^:[a-zA-Z_]\w*))\|?(?:\.(?<r20part>H0|H1|B0|B1|B2|B3|H0_H0|H1_H1))?(?<reuse2>\.reuse)?));)"#@],
        seq![r#"(?^:^(?^:\@(?<predNot>\!)?P(?<predNum>[0-6]) )?IADD(?^:(?<SAT>\.SAT)?)(?^:(?<X>\.X)?) (?^:(?<r0>(?^:[a-zA-Z_]\w*))(?<CC>\.CC)?), (?^:(?<r8neg>\-)?(?<r8abs>\|)?(?<r8>(?^:[a-zA-Z_]\w*))\|?(?:\.(?<r8part>H0|H1|B0|B1|B2|B3|H0_H0|H1_H1|F32))?(?<reuse1>\.reuse)?), (?^:(?^:(?<i20>(?<neg>\-)?(?^:(?^:0[xX][0-9a-fA-F]+)|(?^:\d+[xX]<[^>]+>)|\d+))(?<r20neg>\.NEG)?)|(?^:(?<r20neg>\-)?(?<r20abs>\|)?c\[(?<c34>(?^:0[xX][0-9a-fA-F]+))\]\s*\[(?<c20>(?^:0[xX][0-9a-fA-F]+))\]\|?(?:\.(?<r20part>H0|H1|B0|B1|B2|B3))?)|(?^:(?<r20neg>\-)?(?<r20abs>\|)?(?<r20>(?^:[a-zA-Z_]\w*))\|?(?:\.(?<r20part>H0|H1|B0|B1|B2|B3|H0_H0|H1_H1))?(?<reuse2>\.reuse)?));)"#@],
        seq![r#"(?^:^(?^:\@(?<predNot>\!)?P(?<predNum>[0-6]) )?IADD3(?^:(?:\.(?<type>X|RS|LS))?) (?^:(?<r0>(?^:[a-zA-Z_]\w*))(?<CC>\.CC)?), (?^:(?<r8neg>\-)?(?<r8abs>\|)?(?<r8>(?^:[a-zA-Z_]\w*))\|?(?:\.(?<r8part>H0|H1|B0|B1|B2|B3|H0_H0|H1_H1|F32))?(?<reuse1>\.reuse)?), (?^:(?^:(?<i20>(?<neg>\-)?(?^:(?^:0[xX][0-9a-fA-F]+)|(?^:\d+[xX]<[^>]+>)|\d+))(?<r20neg>\.NEG)?)|(?^:(?<r20neg>\-)?(?<r20abs>\|)?c\[(?<c34>(?^:0[xX][0-9a-fA-F]+))\]\s*\[(?<c20>(?^:0[xX][0-9a-fA-F]+))\]\|?(?:\.(?<r20part>H0|H1|B0|B1|B2|B3))?)|(?^:(?<r20neg>\-)?(?<r20abs>\|)?(?<r20>(?^:[a-zA-Z_]\w*))\|?(?:\.(?<r20part>H0|H1|B0|B1|B2|B3|H0_H0|H1_H1))?(?<reuse2>\.reuse)?)), (?^:(?<r39neg>\-)?(?<r39>(?^:[a-zA-Z_]\w*))(?:\.(?<r39part>H0|H1|H0_H0|H1_H1|F32))?(?<reuse3>\.reuse)?);)"#@],
        seq![r#"(?^:^(?^:\@(?<predNot>\!)?P(?<predNum>[0-6]) )?IADD32I(?^:(?<X>\.X)?) (?^:(?<r0>(?^:[a-zA-Z_]\w*))(?<CC>\.CC)?), (?^:(?<r8neg>\-)?(?<r8abs>\|)?(?<r8>(?^:[a-zA-Z_]\w*))\|?(?:\.(?<r8part>H0|H1|B0|B1|B2|B3|H0_H0|H1_H1|F32))?(?<reuse1>\.reuse)?), (?^:(?<i20w32>\-?(?^:(?^:0[xX][0-9a-fA-F]+)|(?^:\d+[xX]<[^>]+>)|\d+)));)"#@],
        seq![r#"(?^:^(?^:\@(?<predNot>\!)?P(?<predNum>[0-6]) )?ICMP(?^:\.(?<cmp>LT|EQ|LE|GT|NE|GE))(?^:(?<U32>\.U32)?) (?^:(?<r0>(?^:[a-zA-Z_]\w*))), (?^:(?<r8neg>\-)?(?<r8abs>\|)?(?<r8>(?^:[a-zA-Z_]\w*))\|?(?:\.(?<r8part>H0|H1|B0|B1|B2|B3|H0_H0|H1_H1|F32))?(?<reuse1>\.reuse)?), (?^:(?^:(?<i20>(?<neg>\-)?(?^:(?^:0[xX][0-9a-fA-F]+)|(?^:\d+[xX]<[^>]+>)|\d+))(?<r20neg>\.NEG)?)|(?^:(?<r20neg>\-)?(?<r20abs>\|)?c\[(?<c34>(?^:0[xX][0-9a-fA-F]+))\]\s*\[(?<c20>(?^:0[xX][0-9a-fA-F]+))\]\|?(?:\.(?<r20part>H0|H1|B0|B1|B2|B3))?)|(?^:(?<r20neg>\-)?(?<r20abs>\|)?(?<r20>(?^:[a-zA-Z_]\w*))\|?(?:\.(?<r20part>H0|H1|B0|B1|B2|B3|H0_H0|H1_H1))?(?<reuse2>\.reuse)?)), (?^:(?<r39neg>\-)?(?<r39>(?^:[a-zA-Z_]\w*))(?:\.(?<r39part>H0|H1|H0_H0|H1_H1|F32))?(?<reuse3>\.reuse)?);)"#@],
        seq![r#"(?^:^(?^:\@(?<predNot>\!)?P(?<predNum>[0-6]) )?IMAD[^;]*;)"#@],
        seq![r#"(?^:^(?^:\@(?<predNot>\!)?P(?<predNum>[0-6]) )?IMADSP[^;]*;)"#@],
        seq![r#"(?^:^(?^:\@(?<predNot>\!)?P(?<predNum>[0-6]) )?IMNMX(?^:(?<U32>\.U32)?)(?^:(?:\.(?<mode>XHI|XLO))?) (?^:(?<r0>(?^:[a-zA-Z_]\w*))(?<CC>\.CC)?), (?^:(?<r8neg>\-)?(?<r8abs>\|)?(?<r8>(?^:[a-zA-Z_]\w*))\|?(?:\.(?<r8part>H0|H1|B0|B1|B2|B3|H0_H0|H1_H1|F32))?(?<reuse1>\.reuse)?), (?^:(?^:(?<i20>(?<neg>\-)?(?^:(?^:0[xX][0-9a-fA-F]+)|(?^:\d+[xX]<[^>]+>)|\d+))(?<r20neg>\.NEG)?)|(?^:(?<r20neg>\-)?(?<r20abs>\|)?c\[(?<c34>(?^:0[xX][0-9a-fA-F]+))\]\s*\[(?<c20>(?^:0[xX][0-9a-fA-F]+))\]\|?(?:\.(?<r20part>H0|H1|B0|B1|B2|B3))?)|(?^:(?<r20neg>\-)?(?<r20abs>\|)?(?<r20>(?^:[a-zA-Z_]\w*))\|?(?:\.(?<r20part>H0|H1|B0|B1|B2|B3|H0_H0|H1_H1))?(?<reuse2>\.reuse)?)), (?^:(?<p39not>\!)?(?<p39>(?^:P[0-6T])));)"#@],
        seq![r#"(?^:^(?^:\@(?<predNot>\!)?P(?<predNum>[0-6]) )?IMUL[^;]*;)"#@],
        seq![r#"(?^:^(?^:\@(?<predNot>\!)?P(?<predNum>[0-6]) )?ISCADD (?^:(?<r0>(?^:[a-zA-Z_]\w*))), (?^:(?<r8neg>\-)?(?<r8abs>\|)?(?<r8>(?^:[a-zA-Z_]\w*))\|?(?:\.(?<r8part>H0|H1|B0|B1|B2|B3|H0_H0|H1_H1|F32))?(?<reuse1>\.reuse)?), (?^:(?^:(?<i20>(?<neg>\-)?(?^:(?^:0[xX][0-9a-fA-F]+)|(?^:\d+[xX]<[^>]+>)|\d+))(?<r20neg>\.NEG)?)|(?^:(?<r20neg>\-)?(?<r20abs>\|)?c\[(?<c34>(?^:0[xX][0-9a-fA-F]+))\]\s*\[(?<c20>(?^:0[xX][0-9a-fA-F]+))\]\|?(?:\.(?<r20part>H0|H1|B0|B1|B2|B3))?)|(?^:(?<r20neg>\-)?(?<r20abs>\|)?(?<r20>(?^:[a-zA-Z_]\w*))\|?(?:\.(?<r20part>H0|H1|B0|B1|B2|B3|H0_H0|H1_H1))?(?<reuse2>\.reuse)?)), (?^:(?<i39w8>\-?(?^:(?^:0[xX][0-9a-fA-F]+)|(?^:\d+[xX]<[^>]+>)|\d+)));)"#@],
        seq![r#"(?^:^(?^:\@(?<predNot>\!)?P(?<predNum>[0-6]) )?ISCADD32I (?^:(?<r0>(?^:[a-zA-Z_]\w*))), (?^:(?<r8neg>\-)?(?<r8abs>\|)?(?<r8>(?^:[a-zA-Z_]\w*))\|?(?:\.(?<r8part>H0|H1|B0|B1|B2|B3|H0_H0|H1_H1|F32))?(?<reuse1>\.reuse)?), (?^:(?<i20w32>\-?(?^:(?^:0[xX][0-9a-fA-F]+)|(?^:\d+[xX]<[^>]+>)|\d+))), (?^:(?<i53w5>(?^:(?^:0[xX][0-9a-fA-F]+)|(?^:\d+[xX]<[^>]+>)|\d+)));)"#@],
        seq![r#"(?^:^(?^:\@(?<predNot>\!)?P(?<predNum>[0-6]) )?ISET(?^:\.(?<cmp>LT|EQ|LE|GT|NE|GE))(?^:(?<U32>\.U32)?)(?^:(?<X>\.X)?)(?^:\.(?<bool>AND|OR|XOR|PASS_B)) (?^:(?<r0>(?^:[a-zA-Z_]\w*))), (?^:(?<r8neg>\-)?(?<r8abs>\|)?(?<r8>(?^:[a-zA-Z_]\w*))\|?(?:\.(?<r8part>H0|H1|B0|B1|B2|B3|H0_H0|H1_H1|F32))?(?<reuse1>\.reuse)?), (?^:(?^:(?<i20>(?<neg>\-)?(?^:(?^:0[xX][0-9a-fA-F]+)|(?^:\d+[xX]<[^>]+>)|\d+))(?<r20neg>\.NEG)?)|(?^:(?<r20neg>\-)?(?<r20abs>\|)?c\[(?<c34>(?^:0[xX][0-9a-fA-F]+))\]\s*\[(?<c20>(?^:0[xX][0-9a-fA-F]+))\]\|?(?:\.(?<r20part>H0|H1|B0|B1|B2|B3))?)|(?^:(?<r20neg>\-)?(?<r20abs>\|)?(?<r20>(?^:[a-zA-Z_]\w*))\|?(?:\.(?<r20part>H0|H1|B0|B1|B2|B3|H0_H0|H1_H1))?(?<reuse2>\.reuse)?)), (?^:(?<p39not>\!)?(?<p39>(?^:P[0-6T])));)"#@],
        seq![r#"(?^:^(?^:\@(?<predNot>\!)?P(?<predNum>[0-6]) )?ISETP(?^:\.(?<cmp>LT|EQ|LE|GT|NE|GE))(?^:(?<U32>\.U32)?)(?^:(?<X>\.X)?)(?^:\.(?<bool>AND|OR|XOR|PASS_B)) (?^:(?<p3>(?^:P[0-6T]))), (?^:(?<p0>(?^:P[0-6T]))), (?^:(?<r8neg>\-)?(?<r8abs>\|)?(?<r8>(?^:[a-zA-Z_]\w*))\|?(?:\.(?<r8part>H0|H1|B0|B1|B2|B3|H0_H0|H1_H1|F32))?(?<reuse1>\.reuse)?), (?^:(?^:(?<i20>(?<neg>\-)?(?^:(?^:0[xX][0-9a-fA-F]+)|(?^:\d+[xX]<[^>]+>)|\d+))(?<r20neg>\.NEG)?)|(?^:(?<r20neg>\-)?(?<r20abs>\|)?c\[(?<c34>(?^:0[xX][0-9a-fA-F]+))\]\s*\[(?<c20>(?^:0[xX][0-9a-fA-F]+))\]\|?(?:\.(?<r20part>H0|H1|B0|B1|B2|B3))?)|(?^:(?<r20neg>\-)?(?<r20abs>\|)?(?<r20>(?^:[a-zA-Z_]\w*))\|?(?:\.(?<r20part>H0|H1|B0|B1|B2|B3|H0_H0|H1_H1))?(?<reuse2>\.reuse)?)), (?^:(?<p39not>\!)?(?<p39>(?^:P[0-6T])));)"#@],
        seq![r#"(?^:^(?^:(?<noPred>))?JCAL (?^:(?<i20w24>\-?(?^:(?^:0[xX][0-9a-fA-F]+)|(?^:\d+[xX]<[^>]+>)|\d+)));)"#@],
        seq![r#"(?^:^(?^:\@(?<predNot>\!)?P(?<predNum>[0-6]) )?JMP[^;]*;)"#@],
        seq![r#"(?^:^(?^:\@(?<predNot>\!)?P(?<predNum>[0-6]) )?JMX[^;]*;)"#@],
        seq![r#"(?^:^(?^:\@(?<predNot>\!)?P(?<predNum>[0-6]) )?LD(?^:(?<E>\.E)?(?<U>\.U)?(?:\.(?<cache>CG|CI|CS|CV|IL|WT))?)(?^:(?<type>\.U8|\.S8|\.U16|\.S16||\.32|\.64|\.128)) (?^:(?<r0>(?^:[a-zA-Z_]\w*))), (?^:\[(?:(?<r8>(?^:[a-zA-Z_]\w*))|(?<nor8>))(?:\s*\+?\s*(?^:(?<i20w24>\-?(?^:(?^:0[xX][0-9a-fA-F]+)|(?^:\d+[xX]<[^>]+>)|\d+))))?\]), (?^:(?<p58>(?^:P[0-6T])));)"#@],
        seq![r#"(?^:^(?^:\@(?<predNot>\!)?P(?<predNum>[0-6]) )?LDC(?^:(?<E>\.E)?(?<U>\.U)?(?:\.(?<cache>CG|CI|CS|CV|IL|WT))?)(?^:(?<type>\.U8|\.S8|\.U16|\.S16||\.32|\.64|\.128)) (?^:(?<r0>(?^:[a-zA-Z_]\w*))), (?^:c\[(?<c36>(?^:0[xX][0-9a-fA-F]+))\]\s*(?^:\[(?:(?<r8>(?^:[a-zA-Z_]\w*))|(?<nor8>))(?:\s*\+?\s*(?^:(?<i20w24>\-?(?^:(?^:0[xX][0-9a-fA-F]+)|(?^:\d+[xX]<[^>]+>)|\d+))))?\]));)"#@],
        seq![r#"(?^:^(?^:\@(?<predNot>\!)?P(?<predNum>[0-6]) )?LDG(?^:(?<E>\.E)?(?<U>\.U)?(?:\.(?<cache>CG|CI|CS|CV|IL|WT))?)(?^:(?<type>\.U8|\.S8|\.U16|\.S16||\.32|\.64|\.128)) (?^:(?<r0>(?^:[a-zA-Z_]\w*))), (?^:\[(?:(?<r8>(?^:[a-zA-Z_]\w*))|(?<nor8>))(?:\s*\+?\s*(?^:(?<i20w24>\-?(?^:(?^:0[xX][0-9a-fA-F]+)|(?^:\d+[xX]<[^>]+>)|\d+))))?\]);)"#@],
        seq![r#"(?^:^(?^:\@(?<predNot>\!)?P(?<predNum>[0-6]) )?LDL(?^:(?<E>\.E)?(?<U>\.U)?(?:\.(?<cache>CG|CI|CS|CV|IL|WT))?)(?^:(?<type>\.U8|\.S8|\.U16|\.S16||\.32|\.64|\.128)) (?^:(?<r0>(?^:[a-zA-Z_]\w*))), (?^:\[(?:(?<r8>(?^:[a-zA-Z_]\w*))|(?<nor8>))(?:\s*\+?\s*(?^:(?<i20w24>\-?(?^:(?^:0[xX][0-9a-fA-F]+)|(?^:\d+[xX]<[^>]+>)|\d+))))?\]);)"#@],
        seq![r#"(?^:^(?^:\@(?<predNot>\!)?P(?<predNum>[0-6]) )?LDS(?^:(?<E>\.E)?(?<U>\.U)?(?:\.(?<cache>CG|CI|CS|CV|IL|WT))?)(?^:(?<type>\.U8|\.S8|\.U16|\.S16||\.32|\.64|\.128)) (?^:(?<r0>(?^:[a-zA-Z_]\w*))), (?^:\[(?:(?<r8>(?^:[a-zA-Z_]\w*))|(?<nor8>))(?:\s*\+?\s*(?^:(?<i20w24>\-?(?^:(?^:0[xX][0-9a-fA-F]+)|(?^:\d+[xX]<[^>]+>)|\d+))))?\]);)"#@],
        seq![r#"(?^:^(?^:\@(?<predNot>\!)?P(?<predNum>[0-6]) )?LEA (?^:(?<p48>(?^:P[0-6T]))), (?^:(?<r0>(?^:[a-zA-Z_]\w*))(?<CC>\.CC)?), (?^:(?<r8neg>\-)?(?<r8abs>\|)?(?<r8>(?^:[a-zA-Z_]\w*))\|?(?:\.(?<r8part>H0|H1|B0|B1|B2|B3|H0_H0|H1_H1|F32))?(?<reuse1>\.reuse)?), (?^:(?^:(?<i20>(?<neg>\-)?(?^:(?^:0[xX][0-9a-fA-F]+)|(?^:\d+[xX]<[^>]+>)|\d+))(?<r20neg>\.NEG)?)|(?^:(?<r20neg>\-)?(?<r20abs>\|)?c\[(?<c34>(?^:0[xX][0-9a-fA-F]+))\]\s*\[(?<c20>(?^:0[xX][0-9a-fA-F]+))\]\|?(?:\.(?<r20part>H0|H1|B0|B1|B2|B3))?)|(?^:(?<r20neg>\-)?(?<r20abs>\|)?(?<r20>(?^:[a-zA-Z_]\w*))\|?(?:\.(?<r20part>H0|H1|B0|B1|B2|B3|H0_H0|H1_H1))?(?<reuse2>\.reuse)?));)"#@, r#"(?^:^(?^:\@(?<predNot>\!)?P(?<predNum>[0-6]) )?LEA (?^:(?<r0>(?^:[a-zA-Z_]\w*))(?<CC>\.CC)?), (?^:(?<r8neg>\-)?(?<r8abs>\|)?(?<r8>(?^:[a-zA-Z_]\w*))\|?(?:\.(?<r8part>H0|H1|B0|B1|B2|B3|H0_H0|H1_H1|F32))?(?<reuse1>\.reuse)?), (?^:(?^:(?<i20>(?<neg>\-)?(?^:(?^:0[xX][0-9a-fA-F]+)|(?^:\d+[xX]<[^>]+>)|\d+))(?<r20neg>\.NEG)?)|(?^:(?<r20neg>\-)?(?<r20abs>\|)?c\[(?<c34>(?^:0[xX][0-9a-fA-F]+))\]\s*\[(?<c20>(?^:0[xX][0-9a-fA-F]+))\]\|?(?:\.(?<r20part>H0|H1|B0|B1|B2|B3))?)|(?^:(?<r20neg>\-)?(?<r20abs>\|)?(?<r20>(?^:[a-zA-Z_]\w*))\|?(?:\.(?<r20part>H0|H1|B0|B1|B2|B3|H0_H0|H1_H1))?(?<reuse2>\.reuse)?)), (?^:(?<i39w8>\-?(?^:(?^:0[xX][0-9a-fA-F]+)|(?^:\d+[xX]<[^>]+>)|\d+)));)"#@, r#"(?^:^(?^:\@(?<predNot>\!)?P(?<predNum>[0-6]) )?LEA\.HI(?^:(?<X>\.X)?) (?^:(?<r0>(?^:[a-zA-Z_]\w*))(?<CC>\.CC)?), (?^:(?<r8neg>\-)?(?<r8abs>\|)?(?<r8>(?^:[a-zA-Z_]\w*))\|?(?:\.(?<r8part>H0|H1|B0|B1|B2|B3|H0_H0|H1_H1|F32))?(?<reuse1>\.reuse)?), (?^:(?<r20neg>\-)?(?<r20abs>\|)?(?<r20>(?^:[a-zA-Z_]\w*))\|?(?:\.(?<r20part>H0|H1|B0|B1|B2|B3|H0_H0|H1_H1))?(?<reuse2>\.reuse)?), (?^:(?<r39neg>\-)?(?<r39>(?^:[a-zA-Z_]\w*))(?:\.(?<r39part>H0|H1|H0_H0|H1_H1|F32))?(?<reuse3>\.reuse)?), (?^:(?<i28w8>(?^:(?^:0[xX][0-9a-fA-F]+)|(?^:\d+[xX]<[^>]+>)|\d+)));)"#@, r#"(?^:^(?^:\@(?<predNot>\!)?P(?<predNum>[0-6]) )?LEA\.HI(?^:(?<X>\.X)?) (?^:(?<r0>(?^:[a-zA-Z_]\w*))(?<CC>\.CC)?), (?^:(?<r8neg>\-)?(?<r8abs>\|)?(?<r8>(?^:[a-zA-Z_]\w*))\|?(?:\.(?<r8part>H0|H1|B0|B1|B2|B3|H0_H0|H1_H1|F32))?(?<reuse1>\.reuse)?), (?^:(?<r20neg>\-)?(?<r20abs>\|)?c\[(?<c34>(?^:0[xX][0-9a-fA-F]+))\]\s*\[(?<c20>(?^:0[xX][0-9a-fA-F]+))\]\|?(?:\.(?<r20part>H0|H1|B0|B1|B2|B3))?), (?^:(?<r39neg>\-)?(?<r39>(?^:[a-zA-Z_]\w*))(?:\.(?<r39part>H0|H1|H0_H0|H1_H1|F32))?(?<reuse3>\.reuse)?), (?^:(?<i51w5>(?^:(?^:0[xX][0-9a-fA-F]+)|(?^:\d+[xX]<[^>]+>)|\d+)));)"#@],
        seq![r#"(?^:^(?^:\@(?<predNot>\!)?P(?<predNum>[0-6]) )?LOP(?^:\.(?<bool>AND|OR|XOR|PASS_B))(?^:(?:\.(?<z>NZ|Z) (?^:(?<p48>(?^:P[0-6T]))),|(?<noz>))) (?^:(?<r0>(?^:[a-zA-Z_]\w*))), (?^:(?<r8neg>\-)?(?<r8abs>\|)?(?<r8>(?^:[a-zA-Z_]\w*))\|?(?:\.(?<r8part>H0|H1|B0|B1|B2|B3|H0_H0|H1_H1|F32))?(?<reuse1>\.reuse)?), (?<INV>~)?(?^:(?^:(?<i20>(?<neg>\-)?(?^:(?^:0[xX][0-9a-fA-F]+)|(?^:\d+[xX]<[^>]+>)|\d+))(?<r20neg>\.NEG)?)|(?^:(?<r20neg>\-)?(?<r20abs>\|)?c\[(?<c34>(?^:0[xX][0-9a-fA-F]+))\]\s*\[(?<c20>(?^:0[xX][0-9a-fA-F]+))\]\|?(?:\.(?<r20part>H0|H1|B0|B1|B2|B3))?)|(?^:(?<r20neg>\-)?(?<r20abs>\|)?(?<r20>(?^:[a-zA-Z_]\w*))\|?(?:\.(?<r20part>H0|H1|B0|B1|B2|B3|H0_H0|H1_H1))?(?<reuse2>\.reuse)?))(?<INV>\.INV)?;)"#@],
        seq![r#"(?^:^(?^:\@(?<predNot>\!)?P(?<predNum>[0-6]) )?LOP3\.LUT (?^:(?<r0>(?^:[a-zA-Z_]\w*))), (?^:(?<r8neg>\-)?(?<r8abs>\|)?(?<r8>(?^:[a-zA-Z_]\w*))\|?(?:\.(?<r8part>H0|H1|B0|B1|B2|B3|H0_H0|H1_H1|F32))?(?<reuse1>\.reuse)?), (?^:(?<r20neg>\-)?(?<r20abs>\|)?(?<r20>(?^:[a-zA-Z_]\w*))\|?(?:\.(?<r20part>H0|H1|B0|B1|B2|B3|H0_H0|H1_H1))?(?<reuse2>\.reuse)?), (?^:(?<r39neg>\-)?(?<r39>(?^:[a-zA-Z_]\w*))(?:\.(?<r39part>H0|H1|H0_H0|H1_H1|F32))?(?<reuse3>\.reuse)?), (?^:(?<i28w8>(?^:(?^:0[xX][0-9a-fA-F]+)|(?^:\d+[xX]<[^>]+>)|\d+)));)"#@, r#"(?^:^(?^:\@(?<predNot>\!)?P(?<predNum>[0-6]) )?LOP3\.LUT (?^:(?<r0>(?^:[a-zA-Z_]\w*))), (?^:(?<r8neg>\-)?(?<r8abs>\|)?(?<r8>(?^:[a-zA-Z_]\w*))\|?(?:\.(?<r8part>H0|H1|B0|B1|B2|B3|H0_H0|H1_H1|F32))?(?<reuse1>\.reuse)?), (?^:(?<i20>(?<neg>\-)?(?^:(?^:0[xX][0-9a-fA-F]+)|(?^:\d+[xX]<[^>]+>)|\d+))(?<r20neg>\.NEG)?), (?^:(?<r39neg>\-)?(?<r39>(?^:[a-zA-Z_]\w*))(?:\.(?<r39part>H0|H1|H0_H0|H1_H1|F32))?(?<reuse3>\.reuse)?), (?^:(?<i48w8>(?^:(?^:0[xX][0-9a-fA-F]+)|(?^:\d+[xX]<[^>]+>)|\d+)));)"#@],
        seq![r#"(?^:^(?^:\@(?<predNot>\!)?P(?<predNum>[0-6]) )?LOP32I(?^:\.(?<bool>AND|OR|XOR|PASS_B)) (?^:(?<r0>(?^:[a-zA-Z_]\w*))), (?^:(?<r8neg>\-)?(?<r8abs>\|)?(?<r8>(?^:[a-zA-Z_]\w*))\|?(?:\.(?<r8part>H0|H1|B0|B1|B2|B3|H0_H0|H1_H1|F32))?(?<reuse1>\.reuse)?), (?^:(?<i20w32>\-?(?^:(?^:0[xX][0-9a-fA-F]+)|(?^:\d+[xX]<[^>]+>)|\d+)));)"#@],
        seq![r#"(?^:^(?^:\@(?<predNot>\!)?P(?<predNum>[0-6]) )?MEMBAR(?^:\.(?<mode>CTA|GL|SYS));)"#@],
        seq![r#"(?^:^(?^:\@(?<predNot>\!)?P(?<predNum>[0-6]) )?MOV (?^:(?<r0>(?^:[a-zA-Z_]\w*))), (?^:(?^:(?<i20>(?<neg>\-)?(?^:(?^:0[xX][0-9a-fA-F]+)|(?^:\d+[xX]<[^>]+>)|\d+))(?<r20neg>\.NEG)?)|(?^:(?<r20neg>\-)?(?<r20abs>\|)?c\[(?<c34>(?^:0[xX][0-9a-fA-F]+))\]\s*\[(?<c20>(?^:0[xX][0-9a-fA-F]+))\]\|?(?:\.(?<r20part>H0|H1|B0|B1|B2|B3))?)|(?^:(?<r20neg>\-)?(?<r20abs>\|)?(?<r20>(?^:[a-zA-Z_]\w*))\|?(?:\.(?<r20part>H0|H1|B0|B1|B2|B3|H0_H0|H1_H1))?(?<reuse2>\.reuse)?));)"#@],
        seq![r#"(?^:^(?^:\@(?<predNot>\!)?P(?<predNum>[0-6]) )?MOV32I (?^:(?<r0>(?^:[a-zA-Z_]\w*))), (?:(?^:(?<i20w32>\-?(?^:(?^:0[xX][0-9a-fA-F]+)|(?^:\d+[xX]<[^>]+>)|\d+)))|(?^:(?<f20w32>(?:\-|\+|)(?i:(?^:0[xX][0-9a-fA-F]+)|inf\s*|\d+(?:\.\d+(?:e[\+\-]\d+)?)?))));)"#@],
        seq![r#"(?^:^(?^:\@(?<predNot>\!)?P(?<predNum>[0-6]) )?MUFU(?^:\.(?<func>COS|SIN|EX2|LG2|RCP|RSQ|RCP64H|RSQ64H)) (?^:(?<r0>(?^:[a-zA-Z_]\w*))), (?^:(?<r8neg>\-)?(?<r8abs>\|)?(?<r8>(?^:[a-zA-Z_]\w*))\|?(?:\.(?<r8part>H0|H1|B0|B1|B2|B3|H0_H0|H1_H1|F32))?(?<reuse1>\.reuse)?);)"#@],
        seq![r#"(?^:^(?^:\@(?<predNot>\!)?P(?<predNum>[0-6]) )?NOP;)"#@],
        seq![r#"(?^:^(?^:\@(?<predNot>\!)?P(?<predNum>[0-6]) )?P2R (?^:(?<r0>(?^:[a-zA-Z_]\w*))), PR, (?^:(?<r8neg>\-)?(?<r8abs>\|)?(?<r8>(?^:[a-zA-Z_]\w*))\|?(?:\.(?<r8part>H0|H1|B0|B1|B2|B3|H0_H0|H1_H1|F32))?(?<reuse1>\.reuse)?), (?^:(?<i20w7>(?^:(?^:0[xX][0-9a-fA-F]+)|(?^:\d+[xX]<[^>]+>)|\d+)));)"#@],
        seq![r#"(?^:^(?^:(?<noPred>))?PBK (?^:(?<i20w24>\-?(?^:(?^:0[xX][0-9a-fA-F]+)|(?^:\d+[xX]<[^>]+>)|\d+)));)"#@],
        seq![r#"(?^:^(?^:(?<noPred>))?PCNT (?^:(?<i20w24>\-?(?^:(?^:0[xX][0-9a-fA-F]+)|(?^:\d+[xX]<[^>]+>)|\d+)));)"#@],
        seq![r#"(?^:^(?^:\@(?<predNot>\!)?P(?<predNum>[0-6]) )?PEXIT[^;]*;)"#@],
        seq![r#"(?^:^(?^:\@(?<predNot>\!)?P(?<predNum>[0-6]) )?POPC (?^:(?<r0>(?^:[a-zA-Z_]\w*))), (?^:(?<r20neg>\-)?(?<r20abs>\|)?(?<r20>(?^:[a-zA-Z_]\w*))\|?(?:\.(?<r20part>H0|H1|B0|B1|B2|B3|H0_H0|H1_H1))?(?<reuse2>\.reuse)?);)"#@],
        seq![r#"(?^:^(?^:\@(?<predNot>\!)?P(?<predNum>[0-6]) )?PRET[^;]*;)"#@],
        seq![r#"(?^:^(?^:\@(?<predNot>\!)?P(?<predNum>[0-6]) )?PRMT(?^:(?:\.(?<mode>F4E|B4E|RC8|ECL|ECR|RC16))?) (?^:(?<r0>(?^:[a-zA-Z_]\w*))), (?^:(?<r8neg>\-)?(?<r8abs>\|)?(?<r8>(?^:[a-zA-Z_]\w*))\|?(?:\.(?<r8part>H0|H1|B0|B1|B2|B3|H0_H0|H1_H1|F32))?(?<reuse1>\.reuse)?), (?^:(?^:(?<i20>(?<neg>\-)?(?^:(?^:0[xX][0-9a-fA-F]+)|(?^:\d+[xX]<[^>]+>)|\d+))(?<r20neg>\.NEG)?)|(?^:(?<r20neg>\-)?(?<r20abs>\|)?c\[(?<c34>(?^:0[xX][0-9a-fA-F]+))\]\s*\[(?<c20>(?^:0[xX][0-9a-fA-F]+))\]\|?(?:\.(?<r20part>H0|H1|B0|B1|B2|B3))?)|(?^:(?<r20neg>\-)?(?<r20abs>\|)?(?<r20>(?^:[a-zA-Z_]\w*))\|?(?:\.(?<r20part>H0|H1|B0|B1|B2|B3|H0_H0|H1_H1))?(?<reuse2>\.reuse)?)), (?^:(?^:(?<r39neg>\-)?c\[(?<c34>(?^:0[xX][0-9a-fA-F]+))\]\s*\[(?<c39>(?^:0[xX][0-9a-fA-F]+))\])|(?^:(?<r39neg>\-)?(?<r39>(?^:[a-zA-Z_]\w*))(?:\.(?<r39part>H0|H1|H0_H0|H1_H1|F32))?(?<reuse3>\.reuse)?));)"#@],
        seq![r#"(?^:^(?^:\@(?<predNot>\!)?P(?<predNum>[0-6]) )?PSET(?^:\.(?<bool2>AND|OR|XOR))(?^:\.(?<bool>AND|OR|XOR|PASS_B)) (?^:(?<r0>(?^:[a-zA-Z_]\w*))), (?^:(?<p12not>\!)?(?<p12>(?^:P[0-6T]))), (?^:(?<p29not>\!)?(?<p29>(?^:P[0-6T]))), (?^:(?<p39not>\!)?(?<p39>(?^:P[0-6T])));)"#@],
        seq![r#"(?^:^(?^:\@(?<predNot>\!)?P(?<predNum>[0-6]) )?PSETP(?^:\.(?<bool2>AND|OR|XOR))(?^:\.(?<bool>AND|OR|XOR|PASS_B)) (?^:(?<p3>(?^:P[0-6T]))), (?^:(?<p0>(?^:P[0-6T]))), (?^:(?<p12not>\!)?(?<p12>(?^:P[0-6T]))), (?^:(?<p29not>\!)?(?<p29>(?^:P[0-6T]))), (?^:(?<p39not>\!)?(?<p39>(?^:P[0-6T])));)"#@],
        seq![r#"(?^:^(?^:\@(?<predNot>\!)?P(?<predNum>[0-6]) )?R2B[^;]*;)"#@],
        seq![r#"(?^:^(?^:\@(?<predNot>\!)?P(?<predNum>[0-6]) )?R2P PR, (?^:(?<r8neg>\-)?(?<r8abs>\|)?(?<r8>(?^:[a-zA-Z_]\w*))\|?(?:\.(?<r8part>H0|H1|B0|B1|B2|B3|H0_H0|H1_H1|F32))?(?<reuse1>\.reuse)?), (?^:(?<i20w7>(?^:(?^:0[xX][0-9a-fA-F]+)|(?^:\d+[xX]<[^>]+>)|\d+)));)"#@],
        seq![r#"(?^:^(?^:\@(?<predNot>\!)?P(?<predNum>[0-6]) )?RED(?^:(?<E>\.E)?(?:\.(?<mode>ADD|MIN|MAX|INC|DEC|AND|OR|XOR|EXCH|CAS))(?<type>|\.S32|\.U64|\.F(?:16x2|32)\.FTZ\.RN|\.S64|\.64)) (?^:\[(?:(?<r8>(?^:[a-zA-Z_]\w*))|(?<nor8>))(?:\s*\+?\s*(?^:(?<i28w20>\-?(?^:(?^:0[xX][0-9a-fA-F]+)|(?^:\d+[xX]<[^>]+>)|\d+))))?\]), (?^:(?<r0>(?^:[a-zA-Z_]\w*)));)"#@],
        seq![r#"(?^:^(?^:\@(?<predNot>\!)?P(?<predNum>[0-6]) )?RET;)"#@],
        seq![r#"(?^:^(?^:\@(?<predNot>\!)?P(?<predNum>[0-6]) )?RRO(?^:\.(?<func>SINCOS|EX2)) (?^:(?<r0>(?^:[a-zA-Z_]\w*))), (?^:(?<r20neg>\-)?(?<r20abs>\|)?(?<r20>(?^:[a-zA-Z_]\w*))\|?(?:\.(?<r20part>H0|H1|B0|B1|B2|B3|H0_H0|H1_H1))?(?<reuse2>\.reuse)?);)"#@],
        seq![r#"(?^:^(?^:\@(?<predNot>\!)?P(?<predNum>[0-6]) )?S2R (?^:(?<r0>(?^:[a-zA-Z_]\w*))), (?^:SR_(?<sr>\S+));)"#@],
        seq![r#"(?^:^(?^:\@(?<predNot>\!)?P(?<predNum>[0-6]) )?SEL (?^:(?<r0>(?^:[a-zA-Z_]\w*))), (?^:(?<r8neg>\-)?(?<r8abs>\|)?(?<r8>(?^:[a-zA-Z_]\w*))\|?(?:\.(?<r8part>H0|H1|B0|B1|B2|B3|H0_H0|H1_H1|F32))?(?<reuse1>\.reuse)?), (?^:(?^:(?<i20>(?<neg>\-)?(?^:(?^:0[xX][0-9a-fA-F]+)|(?^:\d+[xX]<[^>]+>)|\d+))(?<r20neg>\.NEG)?)|(?^:(?<r20neg>\-)?(?<r20abs>\|)?c\[(?<c34>(?^:0[xX][0-9a-fA-F]+))\]\s*\[(?<c20>(?^:0[xX][0-9a-fA-F]+))\]\|?(?:\.(?<r20part>H0|H1|B0|B1|B2|B3))?)|(?^:(?<r20neg>\-)?(?<r20abs>\|)?(?<r20>(?^:[a-zA-Z_]\w*))\|?(?:\.(?<r20part>H0|H1|B0|B1|B2|B3|H0_H0|H1_H1))?(?<reuse2>\.reuse)?)), (?^:(?<p39not>\!)?(?<p39>(?^:P[0-6T])));)"#@],
        seq![r#"(?^:^(?^:\@(?<predNot>\!)?P(?<predNum>[0-6]) )?SHF\.L(?^:(?<W>\.W)?(?:\.(?<type>U64|S64))?(?<HI>\.HI)?) (?^:(?<r0>(?^:[a-zA-Z_]\w*))), (?^:(?<r8neg>\-)?(?<r8abs>\|)?(?<r8>(?^:[a-zA-Z_]\w*))\|?(?:\.(?<r8part>H0|H1|B0|B1|B2|B3|H0_H0|H1_H1|F32))?(?<reuse1>\.reuse)?), (?^:(?^:(?<i20>(?<neg>\-)?(?^:(?^:0[xX][0-9a-fA-F]+)|(?^:\d+[xX]<[^>]+>)|\d+))(?<r20neg>\.NEG)?)|(?^:(?<r20neg>\-)?(?<r20abs>\|)?(?<r20>(?^:[a-zA-Z_]\w*))\|?(?:\.(?<r20part>H0|H1|B0|B1|B2|B3|H0_H0|H1_H1))?(?<reuse2>\.reuse)?)), (?^:(?<r39neg>\-)?(?<r39>(?^:[a-zA-Z_]\w*))(?:\.(?<r39part>H0|H1|H0_H0|H1_H1|F32))?(?<reuse3>\.reuse)?);)"#@, r#"(?^:^(?^:\@(?<predNot>\!)?P(?<predNum>[0-6]) )?SHF\.R(?^:(?<W>\.W)?(?:\.(?<type>U64|S64))?(?<HI>\.HI)?) (?^:(?<r0>(?^:[a-zA-Z_]\w*))), (?^:(?<r8neg>\-)?(?<r8abs>\|)?(?<r8>(?^:[a-zA-Z_]\w*))\|?(?:\.(?<r8part>H0|H1|B0|B1|B2|B3|H0_H0|H1_H1|F32))?(?<reuse1>\.reuse)?), (?^:(?^:(?<i20>(?<neg>\-)?(?^:(?^:0[xX][0-9a-fA-F]+)|(?^:\d+[xX]<[^>]+>)|\d+))(?<r20neg>\.NEG)?)|(?^:(?<r20neg>\-)?(?<r20abs>\|)?(?<r20>(?^:[a-zA-Z_]\w*))\|?(?:\.(?<r20part>H0|H1|B0|B1|B2|B3|H0_H0|H1_H1))?(?<reuse2>\.reuse)?)), (?^:(?<r39neg>\-)?(?<r39>(?^:[a-zA-Z_]\w*))(?:\.(?<r39part>H0|H1|H0_H0|H1_H1|F32))?(?<reuse3>\.reuse)?);)"#@],
        seq![r#"(?^:^(?^:\@(?<predNot>\!)?P(?<predNum>[0-6]) )?SHFL(?^:\.(?<mode>IDX|UP|DOWN|BFLY)) (?^:(?<p48>(?^:P[0-6T]))), (?^:(?<r0>(?^:[a-zA-Z_]\w*))), (?^:(?<r8neg>\-)?(?<r8abs>\|)?(?<r8>(?^:[a-zA-Z_]\w*))\|?(?:\.(?<r8part>H0|H1|B0|B1|B2|B3|H0_H0|H1_H1|F32))?(?<reuse1>\.reuse)?), (?:(?^:(?<i20w8>(?^:(?^:0[xX][0-9a-fA-F]+)|(?^:\d+[xX]<[^>]+>)|\d+)))|(?^:(?<r20neg>\-)?(?<r20abs>\|)?(?<r20>(?^:[a-zA-Z_]\w*))\|?(?:\.(?<r20part>H0|H1|B0|B1|B2|B3|H0_H0|H1_H1))?(?<reuse2>\.reuse)?)), (?:(?^:(?<i34w13>(?^:(?^:0[xX][0-9a-fA-F]+)|(?^:\d+[xX]<[^>]+>)|\d+)))|(?^:(?<r39neg>\-)?(?<r39>(?^:[a-zA-Z_]\w*))(?:\.(?<r39part>H0|H1|H0_H0|H1_H1|F32))?(?<reuse3>\.reuse)?));)"#@],
        seq![r#"(?^:^(?^:\@(?<predNot>\!)?P(?<predNum>[0-6]) )?SHL(?<W>\.W)? (?^:(?<r0>(?^:[a-zA-Z_]\w*))), (?^:(?<r8neg>\-)?(?<r8abs>\|)?(?<r8>(?^:[a-zA-Z_]\w*))\|?(?:\.(?<r8part>H0|H1|B0|B1|B2|B3|H0_H0|H1_H1|F32))?(?<reuse1>\.reuse)?), (?^:(?^:(?<i20>(?<neg>\-)?(?^:(?^:0[xX][0-9a-fA-F]+)|(?^:\d+[xX]<[^>]+>)|\d+))(?<r20neg>\.NEG)?)|(?^:(?<r20neg>\-)?(?<r20abs>\|)?c\[(?<c34>(?^:0[xX][0-9a-fA-F]+))\]\s*\[(?<c20>(?^:0[xX][0-9a-fA-F]+))\]\|?(?:\.(?<r20part>H0|H1|B0|B1|B2|B3))?)|(?^:(?<r20neg>\-)?(?<r20abs>\|)?(?<r20>(?^:[a-zA-Z_]\w*))\|?(?:\.(?<r20part>H0|H1|B0|B1|B2|B3|H0_H0|H1_H1))?(?<reuse2>\.reuse)?));)"#@],
        seq![r#"(?^:^(?^:\@(?<predNot>\!)?P(?<predNum>[0-6]) )?SHR(?^:(?<U32>\.U32)?) (?^:(?<r0>(?^:[a-zA-Z_]\w*))), (?^:(?<r8neg>\-)?(?<r8abs>\|)?(?<r8>(?^:[a-zA-Z_]\w*))\|?(?:\.(?<r8part>H0|H1|B0|B1|B2|B3|H0_H0|H1_H1|F32))?(?<reuse1>\.reuse)?), (?^:(?^:(?<i20>(?<neg>\-)?(?^:(?^:0[xX][0-9a-fA-F]+)|(?^:\d+[xX]<[^>]+>)|\d+))(?<r20neg>\.NEG)?)|(?^:(?<r20neg>\-)?(?<r20abs>\|)?c\[(?<c34>(?^:0[xX][0-9a-fA-F]+))\]\s*\[(?<c20>(?^:0[xX][0-9a-fA-F]+))\]\|?(?:\.(?<r20part>H0|H1|B0|B1|B2|B3))?)|(?^:(?<r20neg>\-)?(?<r20abs>\|)?(?<r20>(?^:[a-zA-Z_]\w*))\|?(?:\.(?<r20part>H0|H1|B0|B1|B2|B3|H0_H0|H1_H1))?(?<reuse2>\.reuse)?));)"#@],
        seq![r#"(?^:^(?^:(?<noPred>))?SSY (?^:(?<i20w24>\-?(?^:(?^:0[xX][0-9a-fA-F]+)|(?^:\d+[xX]<[^>]+>)|\d+)));)"#@],
        seq![r#"(?^:^(?^:\@(?<predNot>\!)?P(?<predNum>[0-6]) )?ST(?^:(?<E>\.E)?(?<U>\.U)?(?:\.(?<cache>CG|CI|CS|CV|IL|WT))?)(?^:(?<type>\.U8|\.S8|\.U16|\.S16||\.32|\.64|\.128)) (?^:\[(?:(?<r8>(?^:[a-zA-Z_]\w*))|(?<nor8>))(?:\s*\+?\s*(?^:(?<i20w24>\-?(?^:(?^:0[xX][0-9a-fA-F]+)|(?^:\d+[xX]<[^>]+>)|\d+))))?\]), (?^:(?<r0>(?^:[a-zA-Z_]\w*))), (?^:(?<p58>(?^:P[0-6T])));)"#@],
        seq![r#"(?^:^(?^:\@(?<predNot>\!)?P(?<predNum>[0-6]) )?STG(?^:(?<E>\.E)?(?<U>\.U)?(?:\.(?<cache>CG|CI|CS|CV|IL|WT))?)(?^:(?<type>\.U8|\.S8|\.U16|\.S16||\.32|\.64|\.128)) (?^:\[(?:(?<r8>(?^:[a-zA-Z_]\w*))|(?<nor8>))(?:\s*\+?\s*(?^:(?<i20w24>\-?(?^:(?^:0[xX][0-9a-fA-F]+)|(?^:\d+[xX]<[^>]+>)|\d+))))?\]), (?^:(?<r0>(?^:[a-zA-Z_]\w*)));)"#@],
        seq![r#"(?^:^(?^:\@(?<predNot>\!)?P(?<predNum>[0-6]) )?STL(?^:(?<E>\.E)?(?<U>\.U)?(?:\.(?<cache>CG|CI|CS|CV|IL|WT))?)(?^:(?<type>\.U8|\.S8|\.U16|\.S16||\.32|\.64|\.128)) (?^:\[(?:(?<r8>(?^:[a-zA-Z_]\w*))|(?<nor8>))(?:\s*\+?\s*(?^:(?<i20w24>\-?(?^:(?^:0[xX][0-9a-fA-F]+)|(?^:\d+[xX]<[^>]+>)|\d+))))?\]), (?^:(?<r0>(?^:[a-zA-Z_]\w*)));)"#@],
        seq![r#"(?^:^(?^:\@(?<predNot>\!)?P(?<predNum>[0-6]) )?STS(?^:(?<E>\.E)?(?<U>\.U)?(?:\.(?<cache>CG|CI|CS|CV|IL|WT))?)(?^:(?<type>\.U8|\.S8|\.U16|\.S16||\.32|\.64|\.128)) (?^:\[(?:(?<r8>(?^:[a-zA-Z_]\w*))|(?<nor8>))(?:\s*\+?\s*(?^:(?<i20w24>\-?(?^:(?^:0[xX][0-9a-fA-F]+)|(?^:\d+[xX]<[^>]+>)|\d+))))?\]), (?^:(?<r0>(?^:[a-zA-Z_]\w*)));)"#@],
        seq![r#"(?^:^(?^:\@(?<predNot>\!)?P(?<predNum>[0-6]) )?SUATOM[^;]*;)"#@],
        seq![r#"(?^:^(?^:\@(?<predNot>\!)?P(?<predNum>[0-6]) )?SULD[^;]*;)"#@],
        seq![r#"(?^:^(?^:\@(?<predNot>\!)?P(?<predNum>[0-6]) )?SURED[^;]*;)"#@],
        seq![r#"(?^:^(?^:\@(?<predNot>\!)?P(?<predNum>[0-6]) )?SUST[^;]*;)"#@],
        seq![r#"(?^:^(?^:\@(?<predNot>\!)?P(?<predNum>[0-6]) )?SYNC;)"#@],
        seq![r#"(?^:^(?^:\@(?<predNot>\!)?P(?<predNum>[0-6]) )?TEX[^;]*;)"#@],
        seq![r#"(?^:^(?^:\@(?<predNot>\!)?P(?<predNum>[0-6]) )?TEXS[^;]*;)"#@],
        seq![r#"(?^:^(?^:\@(?<predNot>\!)?P(?<predNum>[0-6]) )?TLD\.B\.LZ\.(?^:(?<NODEP>NODEP\.)?(?:(?<reuse1>T)|(?<reuse2>P))) (?^:(?<r0>(?^:[a-zA-Z_]\w*))), (?^:(?<r8neg>\-)?(?<r8abs>\|)?(?<r8>(?^:[a-zA-Z_]\w*))\|?(?:\.(?<r8part>H0|H1|B0|B1|B2|B3|H0_H0|H1_H1|F32))?(?<reuse1>\.reuse)?), (?^:(?<r20neg>\-)?(?<r20abs>\|)?(?<r20>(?^:[a-zA-Z_]\w*))\|?(?:\.(?<r20part>H0|H1|B0|B1|B2|B3|H0_H0|H1_H1))?(?<reuse2>\.reuse)?), (?^:0[xX][0-9a-fA-F]+), \dD, (?^:(?<i31w4>(?^:(?^:0[xX][0-9a-fA-F]+)|(?^:\d+[xX]<[^>]+>)|\d+)));)"#@],
        seq![r#"(?^:^(?^:\@(?<predNot>\!)?P(?<predNum>[0-6]) )?TLD4[^;]*;)"#@],
        seq![r#"(?^:^(?^:\@(?<predNot>\!)?P(?<predNum>[0-6]) )?TLD4S[^;]*;)"#@],
        seq![r#"(?^:^(?^:\@(?<predNot>\!)?P(?<predNum>[0-6]) )?TLDS\.LZ\.(?^:(?<NODEP>NODEP\.)?(?:(?<reuse1>T)|(?<reuse2>P))) (?^:(?<r28>(?^:[a-zA-Z_]\w*))), (?^:(?<r0>(?^:[a-zA-Z_]\w*))), (?^:(?<r8neg>\-)?(?<r8abs>\|)?(?<r8>(?^:[a-zA-Z_]\w*))\|?(?:\.(?<r8part>H0|H1|B0|B1|B2|B3|H0_H0|H1_H1|F32))?(?<reuse1>\.reuse)?), (?^:(?<i36w20>(?^:(?^:0[xX][0-9a-fA-F]+)|(?^:\d+[xX]<[^>]+>)|\d+))), \dD, (?^:(?<chnls>R|RGBA));)"#@],
        seq![r#"(?^:^(?^:\@(?<predNot>\!)?P(?<predNum>[0-6]) )?TXQ[^;]*;)"#@],
        seq![r#"(?^:^(?^:\@(?<predNot>\!)?P(?<predNum>[0-6]) )?VABSDIFF(?^:(?:\.(?<UD>UD))?(?:\.(?<SD>SD))?(?:\.(?<sign1>[SU])(?<size1>8|16|32))?(?:\.(?<sign2>[SU])(?<size2>8|16|32))?)(?^:(?<SAT>\.SAT)?)(?^:(?:\.(?<mode>MRG_16[HL]|MRG_8B[0-3]|ACC|MIN|MAX))?) (?^:(?<r0>(?^:[a-zA-Z_]\w*))), (?^:(?<r8neg>\-)?(?<r8abs>\|)?(?<r8>(?^:[a-zA-Z_]\w*))\|?(?:\.(?<r8part>H0|H1|B0|B1|B2|B3|H0_H0|H1_H1|F32))?(?<reuse1>\.reuse)?), (?^:(?<r20neg>\-)?(?<r20abs>\|)?(?<r20>(?^:[a-zA-Z_]\w*))\|?(?:\.(?<r20part>H0|H1|B0|B1|B2|B3|H0_H0|H1_H1))?(?<reuse2>\.reuse)?), (?^:(?<r39neg>\-)?(?<r39>(?^:[a-zA-Z_]\w*))(?:\.(?<r39part>H0|H1|H0_H0|H1_H1|F32))?(?<reuse3>\.reuse)?);)"#@],
        seq![r#"(?^:^(?^:\@(?<predNot>\!)?P(?<predNum>[0-6]) )?VADD(?^:(?:\.(?<UD>UD))?(?:\.(?<SD>SD))?(?:\.(?<sign1>[SU])(?<size1>8|16|32))?(?:\.(?<sign2>[SU])(?<size2>8|16|32))?)(?^:(?<SAT>\.SAT)?)(?^:(?:\.(?<mode>MRG_16[HL]|MRG_8B[0-3]|ACC|MIN|MAX))?) (?^:(?<r0>(?^:[a-zA-Z_]\w*))), (?^:(?<r8neg>\-)?(?<r8abs>\|)?(?<r8>(?^:[a-zA-Z_]\w*))\|?(?:\.(?<r8part>H0|H1|B0|B1|B2|B3|H0_H0|H1_H1|F32))?(?<reuse1>\.reuse)?), (?^:(?<r20neg>\-)?(?<r20abs>\|)?(?<r20>(?^:[a-zA-Z_]\w*))\|?(?:\.(?<r20part>H0|H1|B0|B1|B2|B3|H0_H0|H1_H1))?(?<reuse2>\.reuse)?), (?^:(?<r39neg>\-)?(?<r39>(?^:[a-zA-Z_]\w*))(?:\.(?<r39part>H0|H1|H0_H0|H1_H1|F32))?(?<reuse3>\.reuse)?);)"#@],
        seq![r#"(?^:^(?^:\@(?<predNot>\!)?P(?<predNum>[0-6]) )?VMAD(?^:\.(?<sign1>[SU])(?<size1>16)\.(?<sign2>[SU])(?<size2>16)) (?^:(?<r0>(?^:[a-zA-Z_]\w*))), (?^:(?<r8neg>\-)?(?<r8abs>\|)?(?<r8>(?^:[a-zA-Z_]\w*))\|?(?:\.(?<r8part>H0|H1|B0|B1|B2|B3|H0_H0|H1_H1|F32))?(?<reuse1>\.reuse)?), (?^:(?<r20neg>\-)?(?<r20abs>\|)?(?<r20>(?^:[a-zA-Z_]\w*))\|?(?:\.(?<r20part>H0|H1|B0|B1|B2|B3|H0_H0|H1_H1))?(?<reuse2>\.reuse)?), (?^:(?<r39neg>\-)?(?<r39>(?^:[a-zA-Z_]\w*))(?:\.(?<r39part>H0|H1|H0_H0|H1_H1|F32))?(?<reuse3>\.reuse)?);)"#@, r#"(?^:^(?^:\@(?<predNot>\!)?P(?<predNum>[0-6]) )?VMAD(?^:\.(?<sign1>[SU])(?<size1>8|16)\.(?<sign2>[SU])(?<size2>8|16)(?<PO>\.PO)?(?<SHR_7>\.SHR_7)?(?<SHR_15>\.SHR_15)?(?<SAT>\.SAT)?) (?^:(?<r0>(?^:[a-zA-Z_]\w*))), (?^:(?<r8neg>\-)?(?<r8abs>\|)?(?<r8>(?^:[a-zA-Z_]\w*))\|?(?:\.(?<r8part>H0|H1|B0|B1|B2|B3|H0_H0|H1_H1|F32))?(?<reuse1>\.reuse)?), (?^:(?<r20neg>\-)?(?<r20abs>\|)?(?<r20>(?^:[a-zA-Z_]\w*))\|?(?:\.(?<r20part>H0|H1|B0|B1|B2|B3|H0_H0|H1_H1))?(?<reuse2>\.reuse)?), (?^:(?<r39neg>\-)?(?<r39>(?^:[a-zA-Z_]\w*))(?:\.(?<r39part>H0|H1|H0_H0|H1_H1|F32))?(?<reuse3>\.reuse)?);)"#@],
        seq![r#"(?^:^(?^:\@(?<predNot>\!)?P(?<predNum>[0-6]) )?VMNMX(?^:(?:\.(?<UD>UD))?(?:\.(?<SD>SD))?(?:\.(?<sign1>[SU])(?<size1>8|16|32))?(?:\.(?<sign2>[SU])(?<size2>8|16|32))?)(?^:(?:\.(?<MX>MX))?)(?^:(?<SAT>\.SAT)?)(?^:(?:\.(?<mode>MRG_16[HL]|MRG_8B[0-3]|ACC|MIN|MAX))?) (?^:(?<r0>(?^:[a-zA-Z_]\w*))), (?^:(?<r8neg>\-)?(?<r8abs>\|)?(?<r8>(?^:[a-zA-Z_]\w*))\|?(?:\.(?<r8part>H0|H1|B0|B1|B2|B3|H0_H0|H1_H1|F32))?(?<reuse1>\.reuse)?), (?^:(?<r20neg>\-)?(?<r20abs>\|)?(?<r20>(?^:[a-zA-Z_]\w*))\|?(?:\.(?<r20part>H0|H1|B0|B1|B2|B3|H0_H0|H1_H1))?(?<reuse2>\.reuse)?), (?^:(?<r39neg>\-)?(?<r39>(?^:[a-zA-Z_]\w*))(?:\.(?<r39part>H0|H1|H0_H0|H1_H1|F32))?(?<reuse3>\.reuse)?);)"#@],
        seq![r#"(?^:^(?^:\@(?<predNot>\!)?P(?<predNum>[0-6]) )?VOTE(?^:\.(?<mode>ALL|ANY|EQ)) (?:(?^:(?<r0>(?^:[a-zA-Z_]\w*))), |(?<nor0>))(?^:(?<p45>(?^:P[0-6T]))), (?^:(?<p39not>\!)?(?<p39>(?^:P[0-6T])));)"#@],
        seq![r#"(?^:^(?^:\@(?<predNot>\!)?P(?<predNum>[0-6]) )?VSET(?^:\.(?<cmp>LT|EQ|LE|GT|NE|GE))(?^:(?:\.(?<UD>UD))?(?:\.(?<SD>SD))?(?:\.(?<sign1>[SU])(?<size1>8|16|32))?(?:\.(?<sign2>[SU])(?<size2>8|16|32))?)(?^:(?:\.(?<mode>MRG_16[HL]|MRG_8B[0-3]|ACC|MIN|MAX))?) (?^:(?<r0>(?^:[a-zA-Z_]\w*))), (?^:(?<r8neg>\-)?(?<r8abs>\|)?(?<r8>(?^:[a-zA-Z_]\w*))\|?(?:\.(?<r8part>H0|H1|B0|B1|B2|B3|H0_H0|H1_H1|F32))?(?<reuse1>\.reuse)?), (?^:(?<r20neg>\-)?(?<r20abs>\|)?(?<r20>(?^:[a-zA-Z_]\w*))\|?(?:\.(?<r20part>H0|H1|B0|B1|B2|B3|H0_H0|H1_H1))?(?<reuse2>\.reuse)?), (?^:(?<r39neg>\-)?(?<r39>(?^:[a-zA-Z_]\w*))(?:\.(?<r39part>H0|H1|H0_H0|H1_H1|F32))?(?<reuse3>\.reuse)?);)"#@],
        seq![r#"(?^:^(?^:\@(?<predNot>\!)?P(?<predNum>[0-6]) )?XMAD(?^:(?:\.(?<type1>U16|S16))?(?:\.(?<type2>U16|S16))?(?:\.(?<mode>MRG|PSL\.CLO|PSL|CHI|CLO|CSFU))?(?<CBCC>\.CBCC)?) (?^:(?<r0>(?^:[a-zA-Z_]\w*))(?<CC>\.CC)?), (?^:(?<r8neg>\-)?(?<r8abs>\|)?(?<r8>(?^:[a-zA-Z_]\w*))\|?(?:\.(?<r8part>H0|H1|B0|B1|B2|B3|H0_H0|H1_H1|F32))?(?<reuse1>\.reuse)?), (?^:(?^:(?<i20>(?<neg>\-)?(?^:(?^:0[xX][0-9a-fA-F]+)|(?^:\d+[xX]<[^>]+>)|\d+))(?<r20neg>\.NEG)?)|(?^:(?<r20neg>\-)?(?<r20abs>\|)?(?<r20>(?^:[a-zA-Z_]\w*))\|?(?:\.(?<r20part>H0|H1|B0|B1|B2|B3|H0_H0|H1_H1))?(?<reuse2>\.reuse)?)), (?^:(?<r39neg>\-)?(?<r39>(?^:[a-zA-Z_]\w*))(?:\.(?<r39part>H0|H1|H0_H0|H1_H1|F32))?(?<reuse3>\.reuse)?);)"#@, r#"(?^:^(?^:\@(?<predNot>\!)?P(?<predNum>[0-6]) )?XMAD(?^:(?:\.(?<type1>U16|S16))?(?:\.(?<type2>U16|S16))?(?:\.(?<mode>MRG|PSL\.CLO|PSL|CHI|CLO|CSFU))?(?<CBCC>\.CBCC)?) (?^:(?<r0>(?^:[a-zA-Z_]\w*))(?<CC>\.CC)?), (?^:(?<r8neg>\-)?(?<r8abs>\|)?(?<r8>(?^:[a-zA-Z_]\w*))\|?(?:\.(?<r8part>H0|H1|B0|B1|B2|B3|H0_H0|H1_H1|F32))?(?<reuse1>\.reuse)?), (?^:(?<r20neg>\-)?(?<r20abs>\|)?(?<r39s20>(?<r20>(?^:[a-zA-Z_]\w*)))\|?(?:\.(?<r39part>H0|H1))?(?<reuse2>\.reuse)?), (?^:(?<r39neg>\-)?c\[(?<c34>(?^:0[xX][0-9a-fA-F]+))\]\s*\[(?<c39>(?^:0[xX][0-9a-fA-F]+))\]);)"#@, r#"(?^:^(?^:\@(?<predNot>\!)?P(?<predNum>[0-6]) )?XMAD(?^:(?:\.(?<type1>U16|S16))?(?:\.(?<type2>U16|S16))?(?:\.(?<modec>MRG|PSL\.CLO|PSL|CHI|CLO|CSFU))?(?<CBCC>\.CBCC)?) (?^:(?<r0>(?^:[a-zA-Z_]\w*))(?<CC>\.CC)?), (?^:(?<r8neg>\-)?(?<r8abs>\|)?(?<r8>(?^:[a-zA-Z_]\w*))\|?(?:\.(?<r8part>H0|H1|B0|B1|B2|B3|H0_H0|H1_H1|F32))?(?<reuse1>\.reuse)?), (?^:(?<r20neg>\-)?(?<r20abs>\|)?c\[(?<c34>(?^:0[xX][0-9a-fA-F]+))\]\s*\[(?<c20>(?^:0[xX][0-9a-fA-F]+))\]\|?(?:\.(?<r20partx>H0|H1|B0|B1|B2|B3))?), (?^:(?<r39neg>\-)?(?<r39>(?^:[a-zA-Z_]\w*))(?:\.(?<r39part>H0|H1|H0_H0|H1_H1|F32))?(?<reuse3>\.reuse)?);)"#@],
    ]
}

/// The rule texts of an entry's encodings.
pub open spec fn entry_rule_texts(e: (&'static str, Vec<GrammarEltBase>)) -> Seq<Seq<char>> {
    e.1@.map_values(|g: GrammarEltBase| g.rule@)
}

/// The grammar: every opcode with its encodings, in grammar order.
#[verifier::rlimit(100)]
pub fn grammar_rules() -> (r: Vec<(&'static str, Vec<GrammarEltBase>)>)
    ensures
        r@.map_values(|e: (&'static str, Vec<GrammarEltBase>)| entry_shape(e)) == grammar_shape(),
        r@.map_values(|e: (&'static str, Vec<GrammarEltBase>)| entry_rule_texts(e))
            == grammar_rule_texts(),
{
    let r: Vec<(&'static str, Vec<GrammarEltBase>)> = vec![
        ("ATOM", vec![
        GrammarEltBase { code: 0xed00000000000000, rule: r#"(?^:^(?^:\@(?<predNot>\!)?P(?<predNum>[0-6]) )?ATOM(?^:(?<E>\.E)?(?:\.(?<mode>ADD|MIN|MAX|INC|DEC|AND|OR|XOR|EXCH|CAS))(?<type>|\.S32|\.U64|\.F(?:16x2|32)\.FTZ\.RN|\.S64|\.64)) (?^:(?<r0>(?^:[a-zA-Z_]\w*))), (?^:\[(?:(?<r8>(?^:[a-zA-Z_]\w*))|(?<nor8>))(?:\s*\+?\s*(?^:(?<i28w20>\-?(?^:(?^:0[xX][0-9a-fA-F]+)|(?^:\d+[xX]<[^>]+>)|\d+))))?\]), (?^:(?<r20neg>\-)?(?<r20abs>\|)?(?<r20>(?^:[a-zA-Z_]\w*))\|?(?:\.(?<r20part>H0|H1|B0|B1|B2|B3|H0_H0|H1_H1))?(?<reuse2>\.reuse)?)(?:, (?^:(?<r39a>(?<r39>(?^:[a-zA-Z_]\w*)))(?<reuse3>\.reuse)?))?;)"#, itype: InstrClass::Gmem },
    ]),
        ("ATOMS", vec![
        GrammarEltBase { code: 0xec00000000000000, rule: r#"(?^:^(?^:\@(?<predNot>\!)?P(?<predNum>[0-6]) )?ATOMS(?^:(?<E>\.E)?(?:\.(?<mode>ADD|MIN|MAX|INC|DEC|AND|OR|XOR|EXCH|CAS))(?<type>|\.S32|\.U64|\.F(?:16x2|32)\.FTZ\.RN|\.S64|\.64)) (?^:(?<r0>(?^:[a-zA-Z_]\w*))), (?^:\[(?:(?<r8>(?^:[a-zA-Z_]\w*))|(?<nor8>))(?:\s*\+?\s*(?^:(?<i28w20>\-?(?^:(?^:0[xX][0-9a-fA-F]+)|(?^:\d+[xX]<[^>]+>)|\d+))))?\]), (?^:(?<r20neg>\-)?(?<r20abs>\|)?(?<r20>(?^:[a-zA-Z_]\w*))\|?(?:\.(?<r20part>H0|H1|B0|B1|B2|B3|H0_H0|H1_H1))?(?<reuse2>\.reuse)?)(?:, (?^:(?<r39a>(?<r39>(?^:[a-zA-Z_]\w*)))(?<reuse3>\.reuse)?))?;)"#, itype: InstrClass::Smem },
    ]),
        ("B2R", vec![
        GrammarEltBase { code: 0xf0b800010000ff00, rule: r#"(?^:^(?^:\@(?<predNot>\!)?P(?<predNum>[0-6]) )?B2R(?^:\.RESULT (?^:(?<r0>(?^:[a-zA-Z_]\w*)))(?:, (?^:(?<p45>(?^:P[0-6T])))|(?<nop45>)));)"#, itype: InstrClass::X32 },
    ]),
        ("BAR", vec![
        GrammarEltBase { code: 0xf0a8000000000000, rule: r#"(?^:^(?^:\@(?<predNot>\!)?P(?<predNum>[0-6]) )?BAR(?^:\.(?<mode>SYNC|ARV|RED)(?:\.(?<red>POPC|AND|OR))? (?:(?^:(?<i8w4>(?^:(?^:0[xX][0-9a-fA-F]+)|(?^:\d+[xX]<[^>]+>)|\d+)))|(?^:(?<r8neg>\-)?(?<r8abs>\|)?(?<r8>(?^:[a-zA-Z_]\w*))\|?(?:\.(?<r8part>H0|H1|B0|B1|B2|B3|H0_H0|H1_H1|F32))?(?<reuse1>\.reuse)?))(?:, (?:(?^:(?<i20w12>(?^:(?^:0[xX][0-9a-fA-F]+)|(?^:\d+[xX]<[^>]+>)|\d+)))|(?^:(?<r20neg>\-)?(?<r20abs>\|)?(?<r20>(?^:[a-zA-Z_]\w*))\|?(?:\.(?<r20part>H0|H1|B0|B1|B2|B3|H0_H0|H1_H1))?(?<reuse2>\.reuse)?)))?(?(<r20>)|(?<nor20>))(?(<red>), (?^:(?<p39not>\!)?(?<p39>(?^:P[0-6T])))|(?<nop39>)));)"#, itype: InstrClass::Gmem },
    ]),
        ("BFE", vec![
        GrammarEltBase { code: 0x5c01000000000000, rule: r#"(?^:^(?^:\@(?<predNot>\!)?P(?<predNum>[0-6]) )?BFE(?^:(?<U32>\.U32)?) (?^:(?<r0>(?^:[a-zA-Z_]\w*))), (?^:(?<r8neg>\-)?(?<r8abs>\|)?(?<r8>(?^:[a-zA-Z_]\w*))\|?(?:\.(?<r8part>H0|H1|B0|B1|B2|B3|H0_H0|H1_H1|F32))?(?<reuse1>\.reuse)?), (?^:(?^:(?<i20>(?<neg>\-)?(?^:(?^:0[xX][0-9a-fA-F]+)|(?^:\d+[xX]<[^>]+>)|\d+))(?<r20neg>\.NEG)?)|(?^:(?<r20neg>\-)?(?<r20abs>\|)?c\[(?<c34>(?^:0[xX][0-9a-fA-F]+))\]\s*\[(?<c20>(?^:0[xX][0-9a-fA-F]+))\]\|?(?:\.(?<r20part>H0|H1|B0|B1|B2|B3))?)|(?^:(?<r20neg>\-)?(?<r20abs>\|)?(?<r20>(?^:[a-zA-Z_]\w*))\|?(?:\.(?<r20part>H0|H1|B0|B1|B2|B3|H0_H0|H1_H1))?(?<reuse2>\.reuse)?));)"#, itype: InstrClass::Shft },
    ]),
        ("BFI", vec![
        GrammarEltBase { code: 0x5bf0000000000000, rule: r#"(?^:^(?^:\@(?<predNot>\!)?P(?<predNum>[0-6]) )?BFI (?^:(?<r0>(?^:[a-zA-Z_]\w*))), (?^:(?<r8neg>\-)?(?<r8abs>\|)?(?<r8>(?^:[a-zA-Z_]\w*))\|?(?:\.(?<r8part>H0|H1|B0|B1|B2|B3|H0_H0|H1_H1|F32))?(?<reuse1>\.reuse)?), (?^:(?^:(?<i20>(?<neg>\-)?(?^:(?^:0[xX][0-9a-fA-F]+)|(?^:\d+[xX]<[^>]+>)|\d+))(?<r20neg>\.NEG)?)|(?^:(?<r20neg>\-)?(?<r20abs>\|)?(?<r20>(?^:[a-zA-Z_]\w*))\|?(?:\.(?<r20part>H0|H1|B0|B1|B2|B3|H0_H0|H1_H1))?(?<reuse2>\.reuse)?)), (?^:(?^:(?<r39neg>\-)?c\[(?<c34>(?^:0[xX][0-9a-fA-F]+))\]\s*\[(?<c39>(?^:0[xX][0-9a-fA-F]+))\])|(?^:(?<r39neg>\-)?(?<r39>(?^:[a-zA-Z_]\w*))(?:\.(?<r39part>H0|H1|H0_H0|H1_H1|F32))?(?<reuse3>\.reuse)?));)"#, itype: InstrClass::Shft },
    ]),
        ("BPT", vec![
        GrammarEltBase { code: 0xe3a00000000000c0, rule: r#"(?^:^(?^:(?<noPred>))?BPT\.TRAP (?^:(?<i20w24>\-?(?^:(?^:0[xX][0-9a-fA-F]+)|(?^:\d+[xX]<[^>]+>)|\d+)));)"#, itype: InstrClass::X32 },
    ]),
        ("BRA", vec![
        GrammarEltBase { code: 0xe24000000000000f, rule: r#"(?^:^(?^:\@(?<predNot>\!)?P(?<predNum>[0-6]) )?BRA(?<U>\.U)? (?^:(?<i20w24>\-?(?^:(?^:0[xX][0-9a-fA-F]+)|(?^:\d+[xX]<[^>]+>)|\d+)));)"#, itype: InstrClass::X32 },
        GrammarEltBase { code: 0xe240000000000002, rule: r#"(?^:^(?^:\@(?<predNot>\!)?P(?<predNum>[0-6]) )?BRA(?<U>\.U)? CC\.EQ, (?^:(?<i20w24>\-?(?^:(?^:0[xX][0-9a-fA-F]+)|(?^:\d+[xX]<[^>]+>)|\d+)));)"#, itype: InstrClass::X32 },
    ]),
        ("BRK", vec![
        GrammarEltBase { code: 0xe34000000000000f, rule: r#"(?^:^(?^:\@(?<predNot>\!)?P(?<predNum>[0-6]) )?BRK;)"#, itype: InstrClass::X32 },
    ]),
        ("BRX", vec![
        GrammarEltBase { code: 0x0, rule: r#"(?^:^(?^:\@(?<predNot>\!)?P(?<predNum>[0-6]) )?BRX[^;]*;)"#, itype: InstrClass::X32 },
    ]),
        ("CAL", vec![
        GrammarEltBase { code: 0xe260000000000040, rule: r#"(?^:^(?^:(?<noPred>))?CAL (?^:(?<i20w24>\-?(?^:(?^:0[xX][0-9a-fA-F]+)|(?^:\d+[xX]<[^>]+>)|\d+)));)"#, itype: InstrClass::X32 },
    ]),
        ("CCTL", vec![
        GrammarEltBase { code: 0x5c88000000000000, rule: r#"(?^:^(?^:\@(?<predNot>\!)?P(?<predNum>[0-6]) )?CCTL[^;]*;)"#, itype: InstrClass::X32 },
    ]),
        ("CCTLL", vec![
        GrammarEltBase { code: 0x5c88000000000000, rule: r#"(?^:^(?^:\@(?<predNot>\!)?P(?<predNum>[0-6]) )?CCTLL[^;]*;)"#, itype: InstrClass::X32 },
    ]),
        ("CCTLT", vec![
        GrammarEltBase { code: 0x5c88000000000000, rule: r#"(?^:^(?^:\@(?<predNot>\!)?P(?<predNum>[0-6]) )?CCTLT[^;]*;)"#, itype: InstrClass::X32 },
    ]),
        ("CONT", vec![
        GrammarEltBase { code: 0xe35000000000000f, rule: r#"(?^:^(?^:\@(?<predNot>\!)?P(?<predNum>[0-6]) )?CONT;)"#, itype: InstrClass::X32 },
    ]),
        ("CS2R", vec![
        GrammarEltBase { code: 0x50c8000000000000, rule: r#"(?^:^(?^:\@(?<predNot>\!)?P(?<predNum>[0-6]) )?CS2R (?^:(?<r0>(?^:[a-zA-Z_]\w*))), (?^:SR_(?<sr>\S+));)"#, itype: InstrClass::X32 },
    ]),
        ("CSET", vec![
        GrammarEltBase { code: 0x0, rule: r#"(?^:^(?^:\@(?<predNot>\!)?P(?<predNum>[0-6]) )?CSET[^;]*;)"#, itype: InstrClass::X32 },
    ]),
        ("CSETP", vec![
        GrammarEltBase { code: 0x0, rule: r#"(?^:^(?^:\@(?<predNot>\!)?P(?<predNum>[0-6]) )?CSETP[^;]*;)"#, itype: InstrClass::X32 },
    ]),
        ("DADD", vec![
        GrammarEltBase { code: 0x5c70000000000000, rule: r#"(?^:^(?^:\@(?<predNot>\!)?P(?<predNum>[0-6]) )?DADD(?^:(?:\.(?<rnd>RN|RM|RP|RZ))?) (?^:(?<r0>(?^:[a-zA-Z_]\w*))), (?^:(?<r8neg>\-)?(?<r8abs>\|)?(?<r8>(?^:[a-zA-Z_]\w*))\|?(?:\.(?<r8part>H0|H1|B0|B1|B2|B3|H0_H0|H1_H1|F32))?(?<reuse1>\.reuse)?), (?^:(?^:(?<d20>(?:(?<neg>\-)|\+|)(?i:inf\s*|\d+(?:\.\d+(?:e[\+\-]\d+)?)?))(?<r20neg>\.NEG)?)|(?^:(?<r20neg>\-)?(?<r20abs>\|)?(?<r20>(?^:[a-zA-Z_]\w*))\|?(?:\.(?<r20part>H0|H1|B0|B1|B2|B3|H0_H0|H1_H1))?(?<reuse2>\.reuse)?));)"#, itype: InstrClass::X64 },
    ]),
        ("DEPBAR", vec![
        GrammarEltBase { code: 0xf0f0000000000000, rule: r#"(?^:^(?^:\@(?<predNot>\!)?P(?<predNum>[0-6]) )?DEPBAR(?^:\.(?<cmp>LT|EQ|LE|GT|NE|GE)) (?^:(?<SB>SB0|SB1|SB2|SB3|SB4|SB5)), (?^:(?<i20w6>(?^:(?^:0[xX][0-9a-fA-F]+)|(?^:\d+[xX]<[^>]+>)|\d+)));)"#, itype: InstrClass::Gmem },
        GrammarEltBase { code: 0xf0f0000000000000, rule: r#"(?^:^(?^:\@(?<predNot>\!)?P(?<predNum>[0-6]) )?DEPBAR(?^: \{(?<db5>5)?,?(?<db4>4)?,?(?<db3>3)?,?(?<db2>2)?,?(?<db1>1)?,?(?<db0>0)?\});)"#, itype: InstrClass::Gmem },
    ]),
        ("DFMA", vec![
        GrammarEltBase { code: 0x5b70000000000000, rule: r#"(?^:^(?^:\@(?<predNot>\!)?P(?<predNum>[0-6]) )?DFMA(?^:(?:\.(?<rnd>RN|RM|RP|RZ))?) (?^:(?<r0>(?^:[a-zA-Z_]\w*))), (?^:(?<r8neg>\-)?(?<r8abs>\|)?(?<r8>(?^:[a-zA-Z_]\w*))\|?(?:\.(?<r8part>H0|H1|B0|B1|B2|B3|H0_H0|H1_H1|F32))?(?<reuse1>\.reuse)?), (?^:(?^:(?<d20>(?:(?<neg>\-)|\+|)(?i:inf\s*|\d+(?:\.\d+(?:e[\+\-]\d+)?)?))(?<r20neg>\.NEG)?)|(?^:(?<r20neg>\-)?(?<r20abs>\|)?(?<r20>(?^:[a-zA-Z_]\w*))\|?(?:\.(?<r20part>H0|H1|B0|B1|B2|B3|H0_H0|H1_H1))?(?<reuse2>\.reuse)?)), (?^:(?<r39neg>\-)?(?<r39>(?^:[a-zA-Z_]\w*))(?:\.(?<r39part>H0|H1|H0_H0|H1_H1|F32))?(?<reuse3>\.reuse)?);)"#, itype: InstrClass::X64 },
    ]),
        ("DMNMX", vec![
        GrammarEltBase { code: 0x5c50000000000000, rule: r#"(?^:^(?^:\@(?<predNot>\!)?P(?<predNum>[0-6]) )?DMNMX (?^:(?<r0>(?^:[a-zA-Z_]\w*))), (?^:(?<r8neg>\-)?(?<r8abs>\|)?(?<r8>(?^:[a-zA-Z_]\w*))\|?(?:\.(?<r8part>H0|H1|B0|B1|B2|B3|H0_H0|H1_H1|F32))?(?<reuse1>\.reuse)?), (?^:(?^:(?<d20>(?:(?<neg>\-)|\+|)(?i:inf\s*|\d+(?:\.\d+(?:e[\+\-]\d+)?)?))(?<r20neg>\.NEG)?)|(?^:(?<r20neg>\-)?(?<r20abs>\|)?(?<r20>(?^:[a-zA-Z_]\w*))\|?(?:\.(?<r20part>H0|H1|B0|B1|B2|B3|H0_H0|H1_H1))?(?<reuse2>\.reuse)?)), (?^:(?<p39not>\!)?(?<p39>(?^:P[0-6T])));)"#, itype: InstrClass::Cmp },
    ]),
        ("DMUL", vec![
        GrammarEltBase { code: 0x5c80000000000000, rule: r#"(?^:^(?^:\@(?<predNot>\!)?P(?<predNum>[0-6]) )?DMUL(?^:(?:\.(?<rnd>RN|RM|RP|RZ))?) (?^:(?<r0>(?^:[a-zA-Z_]\w*))), (?^:(?<r8neg>\-)?(?<r8abs>\|)?(?<r8>(?^:[a-zA-Z_]\w*))\|?(?:\.(?<r8part>H0|H1|B0|B1|B2|B3|H0_H0|H1_H1|F32))?(?<reuse1>\.reuse)?), (?^:(?^:(?<d20>(?:(?<neg>\-)|\+|)(?i:inf\s*|\d+(?:\.\d+(?:e[\+\-]\d+)?)?))(?<r20neg>\.NEG)?)|(?^:(?<r20neg>\-)?(?<r20abs>\|)?(?<r20>(?^:[a-zA-Z_]\w*))\|?(?:\.(?<r20part>H0|H1|B0|B1|B2|B3|H0_H0|H1_H1))?(?<reuse2>\.reuse)?));)"#, itype: InstrClass::X64 },
    ]),
        ("DP2A", vec![
        GrammarEltBase { code: 0x53f9000000000000, rule: r#"(?^:^(?^:\@(?<predNot>\!)?P(?<predNum>[0-6]) )?DP2A(?^:\.(?<mode>LO|HI))(?^:(?:\.(?<type1>U32|S32))?(?:\.(?<type2>U32|S32))?) (?^:(?<r0>(?^:[a-zA-Z_]\w*))), (?^:(?<r8neg>\-)?(?<r8abs>\|)?(?<r8>(?^:[a-zA-Z_]\w*))\|?(?:\.(?<r8part>H0|H1|B0|B1|B2|B3|H0_H0|H1_H1|F32))?(?<reuse1>\.reuse)?), (?^:(?^:(?<i20>(?<neg>\-)?(?^:(?^:0[xX][0-9a-fA-F]+)|(?^:\d+[xX]<[^>]+>)|\d+))(?<r20neg>\.NEG)?)|(?^:(?<r20neg>\-)?(?<r20abs>\|)?c\[(?<c34>(?^:0[xX][0-9a-fA-F]+))\]\s*\[(?<c20>(?^:0[xX][0-9a-fA-F]+))\]\|?(?:\.(?<r20part>H0|H1|B0|B1|B2|B3))?)|(?^:(?<r20neg>\-)?(?<r20abs>\|)?(?<r20>(?^:[a-zA-Z_]\w*))\|?(?:\.(?<r20part>H0|H1|B0|B1|B2|B3|H0_H0|H1_H1))?(?<reuse2>\.reuse)?)), (?^:(?<r39neg>\-)?(?<r39>(?^:[a-zA-Z_]\w*))(?:\.(?<r39part>H0|H1|H0_H0|H1_H1|F32))?(?<reuse3>\.reuse)?);)"#, itype: InstrClass::X32 },
    ]),
        ("DP4A", vec![
        GrammarEltBase { code: 0x53f8000000000000, rule: r#"(?^:^(?^:\@(?<predNot>\!)?P(?<predNum>[0-6]) )?DP4A(?^:(?:\.(?<type1>U32|S32))?(?:\.(?<type2>U32|S32))?) (?^:(?<r0>(?^:[a-zA-Z_]\w*))), (?^:(?<r8neg>\-)?(?<r8abs>\|)?(?<r8>(?^:[a-zA-Z_]\w*))\|?(?:\.(?<r8part>H0|H1|B0|B1|B2|B3|H0_H0|H1_H1|F32))?(?<reuse1>\.reuse)?), (?^:(?^:(?<i20>(?<neg>\-)?(?^:(?^:0[xX][0-9a-fA-F]+)|(?^:\d+[xX]<[^>]+>)|\d+))(?<r20neg>\.NEG)?)|(?^:(?<r20neg>\-)?(?<r20abs>\|)?c\[(?<c34>(?^:0[xX][0-9a-fA-F]+))\]\s*\[(?<c20>(?^:0[xX][0-9a-fA-F]+))\]\|?(?:\.(?<r20part>H0|H1|B0|B1|B2|B3))?)|(?^:(?<r20neg>\-)?(?<r20abs>\|)?(?<r20>(?^:[a-zA-Z_]\w*))\|?(?:\.(?<r20part>H0|H1|B0|B1|B2|B3|H0_H0|H1_H1))?(?<reuse2>\.reuse)?)), (?^:(?<r39neg>\-)?(?<r39>(?^:[a-zA-Z_]\w*))(?:\.(?<r39part>H0|H1|H0_H0|H1_H1|F32))?(?<reuse3>\.reuse)?);)"#, itype: InstrClass::X32 },
    ]),
        ("DSET", vec![
        GrammarEltBase { code: 0x5900000000000000, rule: r#"(?^:^(?^:\@(?<predNot>\!)?P(?<predNum>[0-6]) )?DSET(?^:(?<cmp>\.LT|\.EQ|\.LE|\.GT|\.NE|\.GE|\.NUM|\.NAN|\.LTU|\.EQU|\.LEU|\.GTU|\.NEU|\.GEU|))(?^:\.(?<bool>AND|OR|XOR|PASS_B)) (?^:(?<r0>(?^:[a-zA-Z_]\w*))), (?^:(?<r8neg>\-)?(?<r8abs>\|)?(?<r8>(?^:[a-zA-Z_]\w*))\|?(?:\.(?<r8part>H0|H1|B0|B1|B2|B3|H0_H0|H1_H1|F32))?(?<reuse1>\.reuse)?), (?^:(?^:(?<d20>(?:(?<neg>\-)|\+|)(?i:inf\s*|\d+(?:\.\d+(?:e[\+\-]\d+)?)?))(?<r20neg>\.NEG)?)|(?^:(?<r20neg>\-)?(?<r20abs>\|)?(?<r20>(?^:[a-zA-Z_]\w*))\|?(?:\.(?<r20part>H0|H1|B0|B1|B2|B3|H0_H0|H1_H1))?(?<reuse2>\.reuse)?)), (?^:(?<p39not>\!)?(?<p39>(?^:P[0-6T])));)"#, itype: InstrClass::Cmp },
    ]),
        ("DSETP", vec![
        GrammarEltBase { code: 0x5b80000000000000, rule: r#"(?^:^(?^:\@(?<predNot>\!)?P(?<predNum>[0-6]) )?DSETP(?^:(?<cmp>\.LT|\.EQ|\.LE|\.GT|\.NE|\.GE|\.NUM|\.NAN|\.LTU|\.EQU|\.LEU|\.GTU|\.NEU|\.GEU|))(?^:\.(?<bool>AND|OR|XOR|PASS_B)) (?^:(?<p3>(?^:P[0-6T]))), (?^:(?<p0>(?^:P[0-6T]))), (?^:(?<r8neg>\-)?(?<r8abs>\|)?(?<r8>(?^:[a-zA-Z_]\w*))\|?(?:\.(?<r8part>H0|H1|B0|B1|B2|B3|H0_H0|H1_H1|F32))?(?<reuse1>\.reuse)?), (?^:(?^:(?<d20>(?:(?<neg>\-)|\+|)(?i:inf\s*|\d+(?:\.\d+(?:e[\+\-]\d+)?)?))(?<r20neg>\.NEG)?)|(?^:(?<r20neg>\-)?(?<r20abs>\|)?(?<r20>(?^:[a-zA-Z_]\w*))\|?(?:\.(?<r20part>H0|H1|B0|B1|B2|B3|H0_H0|H1_H1))?(?<reuse2>\.reuse)?)), (?^:(?<p39not>\!)?(?<p39>(?^:P[0-6T])));)"#, itype: InstrClass::Cmp },
    ]),
        ("EXIT", vec![
        GrammarEltBase { code: 0xe30000000000000f, rule: r#"(?^:^(?^:\@(?<predNot>\!)?P(?<predNum>[0-6]) )?EXIT;)"#, itype: InstrClass::X32 },
    ]),
        ("F2F", vec![
        GrammarEltBase { code: 0x5ca8000000000000, rule: r#"(?^:^(?^:\@(?<predNot>\!)?P(?<predNum>[0-6]) )?F2F(?^:(?<FTZ>\.FTZ)?)(?^:\.(?<destSign>F|U|S)(?<destWidth>8|16|32|64)\.(?<srcSign>F|U|S)(?<srcWidth>8|16|32|64))(?^:(?:\.(?<rnd>RN|RM|RP|RZ))?)(?^:(?:\.(?<round>ROUND|FLOOR|CEIL|TRUNC))?)(?^:(?<SAT>\.SAT)?) (?^:(?<r0>(?^:[a-zA-Z_]\w*))), (?^:(?^:(?<r20neg>\-)?(?<r20abs>\|)?c\[(?<c34>(?^:0[xX][0-9a-fA-F]+))\]\s*\[(?<c20>(?^:0[xX][0-9a-fA-F]+))\]\|?(?:\.(?<r20part>H0|H1|B0|B1|B2|B3))?)|(?^:(?<r20neg>\-)?(?<r20abs>\|)?(?<r20>(?^:[a-zA-Z_]\w*))\|?(?:\.(?<r20part>H0|H1|B0|B1|B2|B3|H0_H0|H1_H1))?(?<reuse2>\.reuse)?));)"#, itype: InstrClass::Qtr },
    ]),
        ("F2I", vec![
        GrammarEltBase { code: 0x5cb0000000000000, rule: r#"(?^:^(?^:\@(?<predNot>\!)?P(?<predNum>[0-6]) )?F2I(?^:(?<FTZ>\.FTZ)?)(?^:\.(?<destSign>F|U|S)(?<destWidth>8|16|32|64)\.(?<srcSign>F|U|S)(?<srcWidth>8|16|32|64))(?^:(?:\.(?<round>ROUND|FLOOR|CEIL|TRUNC))?) (?^:(?<r0>(?^:[a-zA-Z_]\w*))), (?^:(?^:(?<r20neg>\-)?(?<r20abs>\|)?c\[(?<c34>(?^:0[xX][0-9a-fA-F]+))\]\s*\[(?<c20>(?^:0[xX][0-9a-fA-F]+))\]\|?(?:\.(?<r20part>H0|H1|B0|B1|B2|B3))?)|(?^:(?<r20neg>\-)?(?<r20abs>\|)?(?<r20>(?^:[a-zA-Z_]\w*))\|?(?:\.(?<r20part>H0|H1|B0|B1|B2|B3|H0_H0|H1_H1))?(?<reuse2>\.reuse)?));)"#, itype: InstrClass::Qtr },
    ]),
        ("FADD", vec![
        GrammarEltBase { code: 0x5c58000000000000, rule: r#"(?^:^(?^:\@(?<predNot>\!)?P(?<predNum>[0-6]) )?FADD(?^:(?<FTZ>\.FTZ)?)(?^:(?:\.(?<rnd>RN|RM|RP|RZ))?)(?^:(?<SAT>\.SAT)?) (?^:(?<r0>(?^:[a-zA-Z_]\w*))), (?^:(?<r8neg>\-)?(?<r8abs>\|)?(?<r8>(?^:[a-zA-Z_]\w*))\|?(?:\.(?<r8part>H0|H1|B0|B1|B2|B3|H0_H0|H1_H1|F32))?(?<reuse1>\.reuse)?), (?^:(?^:(?<f20>(?:(?<neg>\-)|\+|)(?i:inf\s*|\d+(?:\.\d+(?:e[\+\-]\d+)?)?))(?<r20neg>\.NEG)?)|(?^:(?<r20neg>\-)?(?<r20abs>\|)?c\[(?<c34>(?^:0[xX][0-9a-fA-F]+))\]\s*\[(?<c20>(?^:0[xX][0-9a-fA-F]+))\]\|?(?:\.(?<r20part>H0|H1|B0|B1|B2|B3))?)|(?^:(?<r20neg>\-)?(?<r20abs>\|)?(?<r20>(?^:[a-zA-Z_]\w*))\|?(?:\.(?<r20part>H0|H1|B0|B1|B2|B3|H0_H0|H1_H1))?(?<reuse2>\.reuse)?));)"#, itype: InstrClass::X32 },
    ]),
        ("FADD32I", vec![
        GrammarEltBase { code: 0x800000000000000, rule: r#"(?^:^(?^:\@(?<predNot>\!)?P(?<predNum>[0-6]) )?FADD32I(?^:(?<FTZ>\.FTZ)?) (?^:(?<r0>(?^:[a-zA-Z_]\w*))), (?^:(?<r8neg>\-)?(?<r8abs>\|)?(?<r8>(?^:[a-zA-Z_]\w*))\|?(?:\.(?<r8part>H0|H1|B0|B1|B2|B3|H0_H0|H1_H1|F32))?(?<reuse1>\.reuse)?), (?^:(?<f20w32>(?:\-|\+|)(?i:(?^:0[xX][0-9a-fA-F]+)|inf\s*|\d+(?:\.\d+(?:e[\+\-]\d+)?)?)));)"#, itype: InstrClass::X32 },
    ]),
        ("FCHK", vec![
        GrammarEltBase { code: 0x5c88000000000000, rule: r#"(?^:^(?^:\@(?<predNot>\!)?P(?<predNum>[0-6]) )?FCHK\.DIVIDE (?^:(?<p0>(?^:P[0-6T]))), (?^:(?<r8neg>\-)?(?<r8abs>\|)?(?<r8>(?^:[a-zA-Z_]\w*))\|?(?:\.(?<r8part>H0|H1|B0|B1|B2|B3|H0_H0|H1_H1|F32))?(?<reuse1>\.reuse)?), (?^:(?<r20neg>\-)?(?<r20abs>\|)?(?<r20>(?^:[a-zA-Z_]\w*))\|?(?:\.(?<r20part>H0|H1|B0|B1|B2|B3|H0_H0|H1_H1))?(?<reuse2>\.reuse)?);)"#, itype: InstrClass::X32 },
    ]),
        ("FCMP", vec![
        GrammarEltBase { code: 0x5ba0000000000000, rule: r#"(?^:^(?^:\@(?<predNot>\!)?P(?<predNum>[0-6]) )?FCMP(?^:(?<cmp>\.LT|\.EQ|\.LE|\.GT|\.NE|\.GE|\.NUM|\.NAN|\.LTU|\.EQU|\.LEU|\.GTU|\.NEU|\.GEU|))(?^:(?<FTZ>\.FTZ)?) (?^:(?<r0>(?^:[a-zA-Z_]\w*))), (?^:(?<r8neg>\-)?(?<r8abs>\|)?(?<r8>(?^:[a-zA-Z_]\w*))\|?(?:\.(?<r8part>H0|H1|B0|B1|B2|B3|H0_H0|H1_H1|F32))?(?<reuse1>\.reuse)?), (?^:(?^:(?<f20>(?:(?<neg>\-)|\+|)(?i:inf\s*|\d+(?:\.\d+(?:e[\+\-]\d+)?)?))(?<r20neg>\.NEG)?)|(?^:(?<r20neg>\-)?(?<r20abs>\|)?c\[(?<c34>(?^:0[xX][0-9a-fA-F]+))\]\s*\[(?<c20>(?^:0[xX][0-9a-fA-F]+))\]\|?(?:\.(?<r20part>H0|H1|B0|B1|B2|B3))?)|(?^:(?<r20neg>\-)?(?<r20abs>\|)?(?<r20>(?^:[a-zA-Z_]\w*))\|?(?:\.(?<r20part>H0|H1|B0|B1|B2|B3|H0_H0|H1_H1))?(?<reuse2>\.reuse)?)), (?^:(?<r39neg>\-)?(?<r39>(?^:[a-zA-Z_]\w*))(?:\.(?<r39part>H0|H1|H0_H0|H1_H1|F32))?(?<reuse3>\.reuse)?);)"#, itype: InstrClass::Cmp },
    ]),
        ("FFMA", vec![
        GrammarEltBase { code: 0x5980000000000000, rule: r#"(?^:^(?^:\@(?<predNot>\!)?P(?<predNum>[0-6]) )?FFMA(?^:(?<FTZ>\.FTZ)?)(?^:(?:\.(?<rnd>RN|RM|RP|RZ))?)(?^:(?<SAT>\.SAT)?) (?^:(?<r0>(?^:[a-zA-Z_]\w*))), (?^:(?<r8neg>\-)?(?<r8abs>\|)?(?<r8>(?^:[a-zA-Z_]\w*))\|?(?:\.(?<r8part>H0|H1|B0|B1|B2|B3|H0_H0|H1_H1|F32))?(?<reuse1>\.reuse)?), (?^:(?^:(?<f20>(?:(?<neg>\-)|\+|)(?i:inf\s*|\d+(?:\.\d+(?:e[\+\-]\d+)?)?))(?<r20neg>\.NEG)?)|(?^:(?<r20neg>\-)?(?<r20abs>\|)?c\[(?<c34>(?^:0[xX][0-9a-fA-F]+))\]\s*\[(?<c20>(?^:0[xX][0-9a-fA-F]+))\]\|?(?:\.(?<r20part>H0|H1|B0|B1|B2|B3))?)|(?^:(?<r20neg>\-)?(?<r20abs>\|)?(?<r20>(?^:[a-zA-Z_]\w*))\|?(?:\.(?<r20part>H0|H1|B0|B1|B2|B3|H0_H0|H1_H1))?(?<reuse2>\.reuse)?)), (?^:(?<r39neg>\-)?(?<r39>(?^:[a-zA-Z_]\w*))(?:\.(?<r39part>H0|H1|H0_H0|H1_H1|F32))?(?<reuse3>\.reuse)?);)"#, itype: InstrClass::X32 },
        GrammarEltBase { code: 0x5980000000000000, rule: r#"(?^:^(?^:\@(?<predNot>\!)?P(?<predNum>[0-6]) )?FFMA(?^:(?<FTZ>\.FTZ)?)(?^:(?:\.(?<rnd>RN|RM|RP|RZ))?)(?^:(?<SAT>\.SAT)?) (?^:(?<r0>(?^:[a-zA-Z_]\w*))), (?^:(?<r8neg>\-)?(?<r8abs>\|)?(?<r8>(?^:[a-zA-Z_]\w*))\|?(?:\.(?<r8part>H0|H1|B0|B1|B2|B3|H0_H0|H1_H1|F32))?(?<reuse1>\.reuse)?), (?^:(?<r20neg>\-)?(?<r20abs>\|)?(?<r39s20>(?<r20>(?^:[a-zA-Z_]\w*)))\|?(?:\.(?<r39part>H0|H1))?(?<reuse2>\.reuse)?), (?^:(?<r39neg>\-)?c\[(?<c34>(?^:0[xX][0-9a-fA-F]+))\]\s*\[(?<c39>(?^:0[xX][0-9a-fA-F]+))\]);)"#, itype: InstrClass::X32 },
    ]),
        ("FLO", vec![
        GrammarEltBase { code: 0x5c30000000000000, rule: r#"(?^:^(?^:\@(?<predNot>\!)?P(?<predNum>[0-6]) )?FLO\.U32 (?^:(?<r0>(?^:[a-zA-Z_]\w*))), (?^:(?^:(?<i20>(?<neg>\-)?(?^:(?^:0[xX][0-9a-fA-F]+)|(?^:\d+[xX]<[^>]+>)|\d+))(?<r20neg>\.NEG)?)|(?^:(?<r20neg>\-)?(?<r20abs>\|)?c\[(?<c34>(?^:0[xX][0-9a-fA-F]+))\]\s*\[(?<c20>(?^:0[xX][0-9a-fA-F]+))\]\|?(?:\.(?<r20part>H0|H1|B0|B1|B2|B3))?)|(?^:(?<r20neg>\-)?(?<r20abs>\|)?(?<r20>(?^:[a-zA-Z_]\w*))\|?(?:\.(?<r20part>H0|H1|B0|B1|B2|B3|H0_H0|H1_H1))?(?<reuse2>\.reuse)?));)"#, itype: InstrClass::S2r },
    ]),
        ("FMNMX", vec![
        GrammarEltBase { code: 0x5c60000000000000, rule: r#"(?^:^(?^:\@(?<predNot>\!)?P(?<predNum>[0-6]) )?FMNMX(?^:(?<FTZ>\.FTZ)?) (?^:(?<r0>(?^:[a-zA-Z_]\w*))), (?^:(?<r8neg>\-)?(?<r8abs>\|)?(?<r8>(?^:[a-zA-Z_]\w*))\|?(?:\.(?<r8part>H0|H1|B0|B1|B2|B3|H0_H0|H1_H1|F32))?(?<reuse1>\.reuse)?), (?^:(?^:(?<f20>(?:(?<neg>\-)|\+|)(?i:inf\s*|\d+(?:\.\d+(?:e[\+\-]\d+)?)?))(?<r20neg>\.NEG)?)|(?^:(?<r20neg>\-)?(?<r20abs>\|)?c\[(?<c34>(?^:0[xX][0-9a-fA-F]+))\]\s*\[(?<c20>(?^:0[xX][0-9a-fA-F]+))\]\|?(?:\.(?<r20part>H0|H1|B0|B1|B2|B3))?)|(?^:(?<r20neg>\-)?(?<r20abs>\|)?(?<r20>(?^:[a-zA-Z_]\w*))\|?(?:\.(?<r20part>H0|H1|B0|B1|B2|B3|H0_H0|H1_H1))?(?<reuse2>\.reuse)?)), (?^:(?<p39not>\!)?(?<p39>(?^:P[0-6T])));)"#, itype: InstrClass::Shft },
    ]),
        ("FMUL", vec![
        GrammarEltBase { code: 0x5c68000000000000, rule: r#"(?^:^(?^:\@(?<predNot>\!)?P(?<predNum>[0-6]) )?FMUL(?^:(?<FTZ>\.FTZ)?)(?^:(?:\.(?<rnd>RN|RM|RP|RZ))?)(?^:(?<SAT>\.SAT)?) (?^:(?<r0>(?^:[a-zA-Z_]\w*))), (?^:(?<r8neg>\-)?(?<r8abs>\|)?(?<r8>(?^:[a-zA-Z_]\w*))\|?(?:\.(?<r8part>H0|H1|B0|B1|B2|B3|H0_H0|H1_H1|F32))?(?<reuse1>\.reuse)?), (?^:(?^:(?<f20>(?:(?<neg>\-)|\+|)(?i:inf\s*|\d+(?:\.\d+(?:e[\+\-]\d+)?)?))(?<r20neg>\.NEG)?)|(?^:(?<r20neg>\-)?(?<r20abs>\|)?c\[(?<c34>(?^:0[xX][0-9a-fA-F]+))\]\s*\[(?<c20>(?^:0[xX][0-9a-fA-F]+))\]\|?(?:\.(?<r20part>H0|H1|B0|B1|B2|B3))?)|(?^:(?<r20neg>\-)?(?<r20abs>\|)?(?<r20>(?^:[a-zA-Z_]\w*))\|?(?:\.(?<r20part>H0|H1|B0|B1|B2|B3|H0_H0|H1_H1))?(?<reuse2>\.reuse)?));)"#, itype: InstrClass::X32 },
    ]),
        ("FMUL32I", vec![
        GrammarEltBase { code: 0x1e00000000000000, rule: r#"(?^:^(?^:\@(?<predNot>\!)?P(?<predNum>[0-6]) )?FMUL32I(?^:(?<FTZ>\.FTZ)?) (?^:(?<r0>(?^:[a-zA-Z_]\w*))), (?^:(?<r8neg>\-)?(?<r8abs>\|)?(?<r8>(?^:[a-zA-Z_]\w*))\|?(?:\.(?<r8part>H0|H1|B0|B1|B2|B3|H0_H0|H1_H1|F32))?(?<reuse1>\.reuse)?), (?^:(?<f20w32>(?:\-|\+|)(?i:(?^:0[xX][0-9a-fA-F]+)|inf\s*|\d+(?:\.\d+(?:e[\+\-]\d+)?)?)));)"#, itype: InstrClass::X32 },
    ]),
        ("FSET", vec![
        GrammarEltBase { code: 0x5800000000000000, rule: r#"(?^:^(?^:\@(?<predNot>\!)?P(?<predNum>[0-6]) )?FSET(?^:(?<cmp>\.LT|\.EQ|\.LE|\.GT|\.NE|\.GE|\.NUM|\.NAN|\.LTU|\.EQU|\.LEU|\.GTU|\.NEU|\.GEU|))(?^:(?<FTZ>\.FTZ)?)(?^:\.(?<bool>AND|OR|XOR|PASS_B)) (?^:(?<r0>(?^:[a-zA-Z_]\w*))), (?^:(?<r8neg>\-)?(?<r8abs>\|)?(?<r8>(?^:[a-zA-Z_]\w*))\|?(?:\.(?<r8part>H0|H1|B0|B1|B2|B3|H0_H0|H1_H1|F32))?(?<reuse1>\.reuse)?), (?^:(?^:(?<f20>(?:(?<neg>\-)|\+|)(?i:inf\s*|\d+(?:\.\d+(?:e[\+\-]\d+)?)?))(?<r20neg>\.NEG)?)|(?^:(?<r20neg>\-)?(?<r20abs>\|)?c\[(?<c34>(?^:0[xX][0-9a-fA-F]+))\]\s*\[(?<c20>(?^:0[xX][0-9a-fA-F]+))\]\|?(?:\.(?<r20part>H0|H1|B0|B1|B2|B3))?)|(?^:(?<r20neg>\-)?(?<r20abs>\|)?(?<r20>(?^:[a-zA-Z_]\w*))\|?(?:\.(?<r20part>H0|H1|B0|B1|B2|B3|H0_H0|H1_H1))?(?<reuse2>\.reuse)?)), (?^:(?<p39not>\!)?(?<p39>(?^:P[0-6T])));)"#, itype: InstrClass::Shft },
    ]),
        ("FSETP", vec![
        GrammarEltBase { code: 0x5bb0000000000000, rule: r#"(?^:^(?^:\@(?<predNot>\!)?P(?<predNum>[0-6]) )?FSETP(?^:(?<cmp>\.LT|\.EQ|\.LE|\.GT|\.NE|\.GE|\.NUM|\.NAN|\.LTU|\.EQU|\.LEU|\.GTU|\.NEU|\.GEU|))(?^:(?<FTZ>\.FTZ)?)(?^:\.(?<bool>AND|OR|XOR|PASS_B)) (?^:(?<p3>(?^:P[0-6T]))), (?^:(?<p0>(?^:P[0-6T]))), (?^:(?<r8neg>\-)?(?<r8abs>\|)?(?<r8>(?^:[a-zA-Z_]\w*))\|?(?:\.(?<r8part>H0|H1|B0|B1|B2|B3|H0_H0|H1_H1|F32))?(?<reuse1>\.reuse)?), (?^:(?^:(?<f20>(?:(?<neg>\-)|\+|)(?i:inf\s*|\d+(?:\.\d+(?:e[\+\-]\d+)?)?))(?<r20neg>\.NEG)?)|(?^:(?<r20neg>\-)?(?<r20abs>\|)?c\[(?<c34>(?^:0[xX][0-9a-fA-F]+))\]\s*\[(?<c20>(?^:0[xX][0-9a-fA-F]+))\]\|?(?:\.(?<r20part>H0|H1|B0|B1|B2|B3))?)|(?^:(?<r20neg>\-)?(?<r20abs>\|)?(?<r20>(?^:[a-zA-Z_]\w*))\|?(?:\.(?<r20part>H0|H1|B0|B1|B2|B3|H0_H0|H1_H1))?(?<reuse2>\.reuse)?)), (?^:(?<p39not>\!)?(?<p39>(?^:P[0-6T])));)"#, itype: InstrClass::Cmp },
    ]),
        ("FSWZADD", vec![
        GrammarEltBase { code: 0x0, rule: r#"(?^:^(?^:\@(?<predNot>\!)?P(?<predNum>[0-6]) )?FSWZADD[^;]*;)"#, itype: InstrClass::X32 },
    ]),
        ("HADD2", vec![
        GrammarEltBase { code: 0x5d10000000000000, rule: r#"(?^:^(?^:\@(?<predNot>\!)?P(?<predNum>[0-6]) )?HADD2(?^:(?:\.(?<mode>F32|MRG_H0|MRG_H1))?(?^:(?<FTZ>\.FTZ)?))(?^:(?<FMZ>\.FMZ)?)(?^:(?<FTZ>\.FTZ)?)(?^:(?<SAT>\.SAT)?) (?^:(?<r0>(?^:[a-zA-Z_]\w*))), (?^:(?<r8neg>\-)?(?<r8abs>\|)?(?<r8>(?^:[a-zA-Z_]\w*))\|?(?:\.(?<r8part>H0|H1|B0|B1|B2|B3|H0_H0|H1_H1|F32))?(?<reuse1>\.reuse)?), (?^:(?<r20neg>\-)?(?<r20abs>\|)?(?<r20>(?^:[a-zA-Z_]\w*))\|?(?:\.(?<r20part>H0|H1|B0|B1|B2|B3|H0_H0|H1_H1))?(?<reuse2>\.reuse)?);)"#, itype: InstrClass::X32 },
    ]),
        ("HFMA2", vec![
        GrammarEltBase { code: 0x5d00000000000000, rule: r#"(?^:^(?^:\@(?<predNot>\!)?P(?<predNum>[0-6]) )?HFMA2(?^:(?:\.(?<mode>F32|MRG_H0|MRG_H1))?(?^:(?<FTZ>\.FTZ)?))(?^:(?<FMZ>\.FMZ)?)(?^:(?<FTZ>\.FTZ)?)(?^:(?<SAT>\.SAT)?) (?^:(?<r0>(?^:[a-zA-Z_]\w*))), (?^:(?<r8neg>\-)?(?<r8abs>\|)?(?<r8>(?^:[a-zA-Z_]\w*))\|?(?:\.(?<r8part>H0|H1|B0|B1|B2|B3|H0_H0|H1_H1|F32))?(?<reuse1>\.reuse)?), (?^:(?<r20neg>\-)?(?<r20abs>\|)?(?<r20>(?^:[a-zA-Z_]\w*))\|?(?:\.(?<r20part>H0|H1|B0|B1|B2|B3|H0_H0|H1_H1))?(?<reuse2>\.reuse)?), (?^:(?<r39neg>\-)?(?<r39>(?^:[a-zA-Z_]\w*))(?:\.(?<r39part>H0|H1|H0_H0|H1_H1|F32))?(?<reuse3>\.reuse)?);)"#, itype: InstrClass::X32 },
    ]),
        ("HMUL2", vec![
        GrammarEltBase { code: 0x5d08000000000000, rule: r#"(?^:^(?^:\@(?<predNot>\!)?P(?<predNum>[0-6]) )?HMUL2(?^:(?:\.(?<mode>F32|MRG_H0|MRG_H1))?(?^:(?<FTZ>\.FTZ)?))(?^:(?<FMZ>\.FMZ)?)(?^:(?<FTZ>\.FTZ)?)(?^:(?<SAT>\.SAT)?) (?^:(?<r0>(?^:[a-zA-Z_]\w*))), (?^:(?<r8neg>\-)?(?<r8abs>\|)?(?<r8>(?^:[a-zA-Z_]\w*))\|?(?:\.(?<r8part>H0|H1|B0|B1|B2|B3|H0_H0|H1_H1|F32))?(?<reuse1>\.reuse)?), (?^:(?<r20neg>\-)?(?<r20abs>\|)?(?<r20>(?^:[a-zA-Z_]\w*))\|?(?:\.(?<r20part>H0|H1|B0|B1|B2|B3|H0_H0|H1_H1))?(?<reuse2>\.reuse)?);)"#, itype: InstrClass::X32 },
    ]),
        ("HSETP2", vec![
        GrammarEltBase { code: 0x5d20000000000000, rule: r#"(?^:^(?^:\@(?<predNot>\!)?P(?<predNum>[0-6]) )?HSETP2(?^:(?<cmp>\.LT|\.EQ|\.LE|\.GT|\.NE|\.GE|\.NUM|\.NAN|\.LTU|\.EQU|\.LEU|\.GTU|\.NEU|\.GEU|))(?^:\.(?<bool>AND|OR|XOR|PASS_B)) (?^:(?<p3>(?^:P[0-6T]))), (?^:(?<p0>(?^:P[0-6T]))), (?^:(?<r8neg>\-)?(?<r8abs>\|)?(?<r8>(?^:[a-zA-Z_]\w*))\|?(?:\.(?<r8part>H0|H1|B0|B1|B2|B3|H0_H0|H1_H1|F32))?(?<reuse1>\.reuse)?), (?^:(?^:(?<f20>(?:(?<neg>\-)|\+|)(?i:inf\s*|\d+(?:\.\d+(?:e[\+\-]\d+)?)?))(?<r20neg>\.NEG)?)|(?^:(?<r20neg>\-)?(?<r20abs>\|)?c\[(?<c34>(?^:0[xX][0-9a-fA-F]+))\]\s*\[(?<c20>(?^:0[xX][0-9a-fA-F]+))\]\|?(?:\.(?<r20part>H0|H1|B0|B1|B2|B3))?)|(?^:(?<r20neg>\-)?(?<r20abs>\|)?(?<r20>(?^:[a-zA-Z_]\w*))\|?(?:\.(?<r20part>H0|H1|B0|B1|B2|B3|H0_H0|H1_H1))?(?<reuse2>\.reuse)?)), (?^:(?<p39not>\!)?(?<p39>(?^:P[0-6T])));)"#, itype: InstrClass::Cmp },
    ]),
        ("I2F", vec![
        GrammarEltBase { code: 0x5cb8000000000000, rule: r#"(?^:^(?^:\@(?<predNot>\!)?P(?<predNum>[0-6]) )?I2F(?^:\.(?<destSign>F|U|S)(?<destWidth>8|16|32|64)\.(?<srcSign>F|U|S)(?<srcWidth>8|16|32|64))(?^:(?:\.(?<rnd>RN|RM|RP|RZ))?) (?^:(?<r0>(?^:[a-zA-Z_]\w*))), (?^:(?^:(?<r20neg>\-)?(?<r20abs>\|)?c\[(?<c34>(?^:0[xX][0-9a-fA-F]+))\]\s*\[(?<c20>(?^:0[xX][0-9a-fA-F]+))\]\|?(?:\.(?<r20part>H0|H1|B0|B1|B2|B3))?)|(?^:(?<r20neg>\-)?(?<r20abs>\|)?(?<r20>(?^:[a-zA-Z_]\w*))\|?(?:\.(?<r20part>H0|H1|B0|B1|B2|B3|H0_H0|H1_H1))?(?<reuse2>\.reuse)?));)"#, itype: InstrClass::Qtr },
    ]),
        ("I2I", vec![
        GrammarEltBase { code: 0x5ce0000000000000, rule: r#"(?^:^(?^:\@(?<predNot>\!)?P(?<predNum>[0-6]) )?I2I(?^:\.(?<destSign>F|U|S)(?<destWidth>8|16|32|64)\.(?<srcSign>F|U|S)(?<srcWidth>8|16|32|64))(?^:(?<SAT>\.SAT)?) (?^:(?<r0>(?^:[a-zA-Z_]\w*))), (?^:(?^:(?<r20neg>\-)?(?<r20abs>\|)?c\[(?<c34>(?^:0[xX][0-9a-fA-F]+))\]\s*\[(?<c20>(?^:0[xX][0-9a-fA-F]+))\]\|?(?:\.(?<r20part>H0|H1|B0|B1|B2|B3))?)|(?^:(?<r20neg>\-)?(?<r20abs>\|)?(?<r20>(?^:[a-zA-Z_]\w*))\|?(?:\.(?<r20part>H0|H1|B0|B1|B2|B3|H0_H0|H1_H1))?(?<reuse2>\.reuse)?));)"#, itype: InstrClass::Qtr },
    ]),
        ("IADD", vec![
        GrammarEltBase { code: 0x5c10000000000000, rule: r#"(?^:^(?^:\@(?<predNot>\!)?P(?<predNum>[0-6]) )?IADD(?^:(?<SAT>\.SAT)?)(?^:(?<X>\.X)?) (?^:(?<r0>(?^:[a-zA-Z_]\w*))(?<CC>\.CC)?), (?^:(?<r8neg>\-)?(?<r8abs>\|)?(?<r8>(?^:[a-zA-Z_]\w*))\|?(?:\.(?<r8part>H0|H1|B0|B1|B2|B3|H0_H0|H1_H1|F32))?(?<reuse1>\.reuse)?), (?^:(?^:(?<i20>(?<neg>\-)?(?^:(?^:0[xX][0-9a-fA-F]+)|(?^:\d+[xX]<[^>]+>)|\d+))(?<r20neg>\.NEG)?)|(?^:(?<r20neg>\-)?(?<r20abs>\|)?c\[(?<c34>(?^:0[xX][0-9a-fA-F]+))\]\s*\[(?<c20>(?^:0[xX][0-9a-fA-F]+))\]\|?(?:\.(?<r20part>H0|H1|B0|B1|B2|B3))?)|(?^:(?<r20neg>\-)?(?<r20abs>\|)?(?<r20>(?^:[a-zA-Z_]\w*))\|?(?:\.(?<r20part>H0|H1|B0|B1|B2|B3|H0_H0|H1_H1))?(?<reuse2>\.reuse)?));)"#, itype: InstrClass::X32 },
    ]),
        ("IADD3", vec![
        GrammarEltBase { code: 0x5cc0000000000000, rule: r#"(?^:^(?^:\@(?<predNot>\!)?P(?<predNum>[0-6]) )?IADD3(?^:(?:\.(?<type>X|RS|LS))?) (?^:(?<r0>(?^:[a-zA-Z_]\w*))(?<CC>\.CC)?), (?^:(?<r8neg>\-)?(?<r8abs>\|)?(?<r8>(?^:[a-zA-Z_]\w*))\|?(?:\.(?<r8part>H0|H1|B0|B1|B2|B3|H0_H0|H1_H1|F32))?(?<reuse1>\.reuse)?), (?^:(?^:(?<i20>(?<neg>\-)?(?^:(?^:0[xX][0-9a-fA-F]+)|(?^:\d+[xX]<[^>]+>)|\d+))(?<r20neg>\.NEG)?)|(?^:(?<r20neg>\-)?(?<r20abs>\|)?c\[(?<c34>(?^:0[xX][0-9a-fA-F]+))\]\s*\[(?<c20>(?^:0[xX][0-9a-fA-F]+))\]\|?(?:\.(?<r20part>H0|H1|B0|B1|B2|B3))?)|(?^:(?<r20neg>\-)?(?<r20abs>\|)?(?<r20>(?^:[a-zA-Z_]\w*))\|?(?:\.(?<r20part>H0|H1|B0|B1|B2|B3|H0_H0|H1_H1))?(?<reuse2>\.reuse)?)), (?^:(?<r39neg>\-)?(?<r39>(?^:[a-zA-Z_]\w*))(?:\.(?<r39part>H0|H1|H0_H0|H1_H1|F32))?(?<reuse3>\.reuse)?);)"#, itype: InstrClass::X32 },
    ]),
        ("IADD32I", vec![
        GrammarEltBase { code: 0x1c00000000000000, rule: r#"(?^:^(?^:\@(?<predNot>\!)?P(?<predNum>[0-6]) )?IADD32I(?^:(?<X>\.X)?) (?^:(?<r0>(?^:[a-zA-Z_]\w*))(?<CC>\.CC)?), (?^:(?<r8neg>\-)?(?<r8abs>\|)?(?<r8>(?^:[a-zA-Z_]\w*))\|?(?:\.(?<r8part>H0|H1|B0|B1|B2|B3|H0_H0|H1_H1|F32))?(?<reuse1>\.reuse)?), (?^:(?<i20w32>\-?(?^:(?^:0[xX][0-9a-fA-F]+)|(?^:\d+[xX]<[^>]+>)|\d+)));)"#, itype: InstrClass::X32 },
    ]),
        ("ICMP", vec![
        GrammarEltBase { code: 0x5b41000000000000, rule: r#"(?^:^(?^:\@(?<predNot>\!)?P(?<predNum>[0-6]) )?ICMP(?^:\.(?<cmp>LT|EQ|LE|GT|NE|GE))(?^:(?<U32>\.U32)?) (?^:(?<r0>(?^:[a-zA-Z_]\w*))), (?^:(?<r8neg>\-)?(?<r8abs>\|)?(?<r8>(?^:[a-zA-Z_]\w*))\|?(?:\.(?<r8part>H0|H1|B0|B1|B2|B3|H0_H0|H1_H1|F32))?(?<reuse1>\.reuse)?), (?^:(?^:(?<i20>(?<neg>\-)?(?^:(?^:0[xX][0-9a-fA-F]+)|(?^:\d+[xX]<[^>]+>)|\d+))(?<r20neg>\.NEG)?)|(?^:(?<r20neg>\-)?(?<r20abs>\|)?c\[(?<c34>(?^:0[xX][0-9a-fA-F]+))\]\s*\[(?<c20>(?^:0[xX][0-9a-fA-F]+))\]\|?(?:\.(?<r20part>H0|H1|B0|B1|B2|B3))?)|(?^:(?<r20neg>\-)?(?<r20abs>\|)?(?<r20>(?^:[a-zA-Z_]\w*))\|?(?:\.(?<r20part>H0|H1|B0|B1|B2|B3|H0_H0|H1_H1))?(?<reuse2>\.reuse)?)), (?^:(?<r39neg>\-)?(?<r39>(?^:[a-zA-Z_]\w*))(?:\.(?<r39part>H0|H1|H0_H0|H1_H1|F32))?(?<reuse3>\.reuse)?);)"#, itype: InstrClass::Cmp },
    ]),
        ("IMAD", vec![
        GrammarEltBase { code: 0x0, rule: r#"(?^:^(?^:\@(?<predNot>\!)?P(?<predNum>[0-6]) )?IMAD[^;]*;)"#, itype: InstrClass::X32 },
    ]),
        ("IMADSP", vec![
        GrammarEltBase { code: 0x0, rule: r#"(?^:^(?^:\@(?<predNot>\!)?P(?<predNum>[0-6]) )?IMADSP[^;]*;)"#, itype: InstrClass::X32 },
    ]),
        ("IMNMX", vec![
        GrammarEltBase { code: 0x5c21000000000000, rule: r#"(?^:^(?^:\@(?<predNot>\!)?P(?<predNum>[0-6]) )?IMNMX(?^:(?<U32>\.U32)?)(?^:(?:\.(?<mode>XHI|XLO))?) (?^:(?<r0>(?^:[a-zA-Z_]\w*))(?<CC>\.CC)?), (?^:(?<r8neg>\-)?(?<r8abs>\|)?(?<r8>(?^:[a-zA-Z_]\w*))\|?(?:\.(?<r8part>H0|H1|B0|B1|B2|B3|H0_H0|H1_H1|F32))?(?<reuse1>\.reuse)?), (?^:(?^:(?<i20>(?<neg>\-)?(?^:(?^:0[xX][0-9a-fA-F]+)|(?^:\d+[xX]<[^>]+>)|\d+))(?<r20neg>\.NEG)?)|(?^:(?<r20neg>\-)?(?<r20abs>\|)?c\[(?<c34>(?^:0[xX][0-9a-fA-F]+))\]\s*\[(?<c20>(?^:0[xX][0-9a-fA-F]+))\]\|?(?:\.(?<r20part>H0|H1|B0|B1|B2|B3))?)|(?^:(?<r20neg>\-)?(?<r20abs>\|)?(?<r20>(?^:[a-zA-Z_]\w*))\|?(?:\.(?<r20part>H0|H1|B0|B1|B2|B3|H0_H0|H1_H1))?(?<reuse2>\.reuse)?)), (?^:(?<p39not>\!)?(?<p39>(?^:P[0-6T])));)"#, itype: InstrClass::Shft },
    ]),
        ("IMUL", vec![
        GrammarEltBase { code: 0x0, rule: r#"(?^:^(?^:\@(?<predNot>\!)?P(?<predNum>[0-6]) )?IMUL[^;]*;)"#, itype: InstrClass::X32 },
    ]),
        ("ISCADD", vec![
        GrammarEltBase { code: 0x5c18000000000000, rule: r#"(?^:^(?^:\@(?<predNot>\!)?P(?<predNum>[0-6]) )?ISCADD (?^:(?<r0>(?^:[a-zA-Z_]\w*))), (?^:(?<r8neg>\-)?(?<r8abs>\|)?(?<r8>(?^:[a-zA-Z_]\w*))\|?(?:\.(?<r8part>H0|H1|B0|B1|B2|B3|H0_H0|H1_H1|F32))?(?<reuse1>\.reuse)?), (?^:(?^:(?<i20>(?<neg>\-)?(?^:(?^:0[xX][0-9a-fA-F]+)|(?^:\d+[xX]<[^>]+>)|\d+))(?<r20neg>\.NEG)?)|(?^:(?<r20neg>\-)?(?<r20abs>\|)?c\[(?<c34>(?^:0[xX][0-9a-fA-F]+))\]\s*\[(?<c20>(?^:0[xX][0-9a-fA-F]+))\]\|?(?:\.(?<r20part>H0|H1|B0|B1|B2|B3))?)|(?^:(?<r20neg>\-)?(?<r20abs>\|)?(?<r20>(?^:[a-zA-Z_]\w*))\|?(?:\.(?<r20part>H0|H1|B0|B1|B2|B3|H0_H0|H1_H1))?(?<reuse2>\.reuse)?)), (?^:(?<i39w8>\-?(?^:(?^:0[xX][0-9a-fA-F]+)|(?^:\d+[xX]<[^>]+>)|\d+)));)"#, itype: InstrClass::Shft },
    ]),
        ("ISCADD32I", vec![
        GrammarEltBase { code: 0x1400000000000000, rule: r#"(?^:^(?^:\@(?<predNot>\!)?P(?<predNum>[0-6]) )?ISCADD32I (?^:(?<r0>(?^:[a-zA-Z_]\w*))), (?^:(?<r8neg>\-)?(?<r8abs>\|)?(?<r8>(?^:[a-zA-Z_]\w*))\|?(?:\.(?<r8part>H0|H1|B0|B1|B2|B3|H0_H0|H1_H1|F32))?(?<reuse1>\.reuse)?), (?^:(?<i20w32>\-?(?^:(?^:0[xX][0-9a-fA-F]+)|(?^:\d+[xX]<[^>]+>)|\d+))), (?^:(?<i53w5>(?^:(?^:0[xX][0-9a-fA-F]+)|(?^:\d+[xX]<[^>]+>)|\d+)));)"#, itype: InstrClass::Shft },
    ]),
        ("ISET", vec![
        GrammarEltBase { code: 0x5b51000000000000, rule: r#"(?^:^(?^:\@(?<predNot>\!)?P(?<predNum>[0-6]) )?ISET(?^:\.(?<cmp>LT|EQ|LE|GT|NE|GE))(?^:(?<U32>\.U32)?)(?^:(?<X>\.X)?)(?^:\.(?<bool>AND|OR|XOR|PASS_B)) (?^:(?<r0>(?^:[a-zA-Z_]\w*))), (?^:(?<r8neg>\-)?(?<r8abs>\|)?(?<r8>(?^:[a-zA-Z_]\w*))\|?(?:\.(?<r8part>H0|H1|B0|B1|B2|B3|H0_H0|H1_H1|F32))?(?<reuse1>\.reuse)?), (?^:(?^:(?<i20>(?<neg>\-)?(?^:(?^:0[xX][0-9a-fA-F]+)|(?^:\d+[xX]<[^>]+>)|\d+))(?<r20neg>\.NEG)?)|(?^:(?<r20neg>\-)?(?<r20abs>\|)?c\[(?<c34>(?^:0[xX][0-9a-fA-F]+))\]\s*\[(?<c20>(?^:0[xX][0-9a-fA-F]+))\]\|?(?:\.(?<r20part>H0|H1|B0|B1|B2|B3))?)|(?^:(?<r20neg>\-)?(?<r20abs>\|)?(?<r20>(?^:[a-zA-Z_]\w*))\|?(?:\.(?<r20part>H0|H1|B0|B1|B2|B3|H0_H0|H1_H1))?(?<reuse2>\.reuse)?)), (?^:(?<p39not>\!)?(?<p39>(?^:P[0-6T])));)"#, itype: InstrClass::Shft },
    ]),
        ("ISETP", vec![
        GrammarEltBase { code: 0x5b61000000000000, rule: r#"(?^:^(?^:\@(?<predNot>\!)?P(?<predNum>[0-6]) )?ISETP(?^:\.(?<cmp>LT|EQ|LE|GT|NE|GE))(?^:(?<U32>\.U32)?)(?^:(?<X>\.X)?)(?^:\.(?<bool>AND|OR|XOR|PASS_B)) (?^:(?<p3>(?^:P[0-6T]))), (?^:(?<p0>(?^:P[0-6T]))), (?^:(?<r8neg>\-)?(?<r8abs>\|)?(?<r8>(?^:[a-zA-Z_]\w*))\|?(?:\.(?<r8part>H0|H1|B0|B1|B2|B3|H0_H0|H1_H1|F32))?(?<reuse1>\.reuse)?), (?^:(?^:(?<i20>(?<neg>\-)?(?^:(?^:0[xX][0-9a-fA-F]+)|(?^:\d+[xX]<[^>]+>)|\d+))(?<r20neg>\.NEG)?)|(?^:(?<r20neg>\-)?(?<r20abs>\|)?c\[(?<c34>(?^:0[xX][0-9a-fA-F]+))\]\s*\[(?<c20>(?^:0[xX][0-9a-fA-F]+))\]\|?(?:\.(?<r20part>H0|H1|B0|B1|B2|B3))?)|(?^:(?<r20neg>\-)?(?<r20abs>\|)?(?<r20>(?^:[a-zA-Z_]\w*))\|?(?:\.(?<r20part>H0|H1|B0|B1|B2|B3|H0_H0|H1_H1))?(?<reuse2>\.reuse)?)), (?^:(?<p39not>\!)?(?<p39>(?^:P[0-6T])));)"#, itype: InstrClass::Cmp },
    ]),
        ("JCAL", vec![
        GrammarEltBase { code: 0xe220000000000040, rule: r#"(?^:^(?^:(?<noPred>))?JCAL (?^:(?<i20w24>\-?(?^:(?^:0[xX][0-9a-fA-F]+)|(?^:\d+[xX]<[^>]+>)|\d+)));)"#, itype: InstrClass::X32 },
    ]),
        ("JMP", vec![
        GrammarEltBase { code: 0x0, rule: r#"(?^:^(?^:\@(?<predNot>\!)?P(?<predNum>[0-6]) )?JMP[^;]*;)"#, itype: InstrClass::X32 },
    ]),
        ("JMX", vec![
        GrammarEltBase { code: 0x0, rule: r#"(?^:^(?^:\@(?<predNot>\!)?P(?<predNum>[0-6]) )?JMX[^;]*;)"#, itype: InstrClass::X32 },
    ]),
        ("LD", vec![
        GrammarEltBase { code: 0x8000000000000000, rule: r#"(?^:^(?^:\@(?<predNot>\!)?P(?<predNum>[0-6]) )?LD(?^:(?<E>\.E)?(?<U>\.U)?(?:\.(?<cache>CG|CI|CS|CV|IL|WT))?)(?^:(?<type>\.U8|\.S8|\.U16|\.S16||\.32|\.64|\.128)) (?^:(?<r0>(?^:[a-zA-Z_]\w*))), (?^:\[(?:(?<r8>(?^:[a-zA-Z_]\w*))|(?<nor8>))(?:\s*\+?\s*(?^:(?<i20w24>\-?(?^:(?^:0[xX][0-9a-fA-F]+)|(?^:\d+[xX]<[^>]+>)|\d+))))?\]), (?^:(?<p58>(?^:P[0-6T])));)"#, itype: InstrClass::Gmem },
    ]),
        ("LDC", vec![
        GrammarEltBase { code: 0xef90000000000000, rule: r#"(?^:^(?^:\@(?<predNot>\!)?P(?<predNum>[0-6]) )?LDC(?^:(?<E>\.E)?(?<U>\.U)?(?:\.(?<cache>CG|CI|CS|CV|IL|WT))?)(?^:(?<type>\.U8|\.S8|\.U16|\.S16||\.32|\.64|\.128)) (?^:(?<r0>(?^:[a-zA-Z_]\w*))), (?^:c\[(?<c36>(?^:0[xX][0-9a-fA-F]+))\]\s*(?^:\[(?:(?<r8>(?^:[a-zA-Z_]\w*))|(?<nor8>))(?:\s*\+?\s*(?^:(?<i20w24>\-?(?^:(?^:0[xX][0-9a-fA-F]+)|(?^:\d+[xX]<[^>]+>)|\d+))))?\]));)"#, itype: InstrClass::Gmem },
    ]),
        ("LDG", vec![
        GrammarEltBase { code: 0xeed0000000000000, rule: r#"(?^:^(?^:\@(?<predNot>\!)?P(?<predNum>[0-6]) )?LDG(?^:(?<E>\.E)?(?<U>\.U)?(?:\.(?<cache>CG|CI|CS|CV|IL|WT))?)(?^:(?<type>\.U8|\.S8|\.U16|\.S16||\.32|\.64|\.128)) (?^:(?<r0>(?^:[a-zA-Z_]\w*))), (?^:\[(?:(?<r8>(?^:[a-zA-Z_]\w*))|(?<nor8>))(?:\s*\+?\s*(?^:(?<i20w24>\-?(?^:(?^:0[xX][0-9a-fA-F]+)|(?^:\d+[xX]<[^>]+>)|\d+))))?\]);)"#, itype: InstrClass::Gmem },
    ]),
        ("LDL", vec![
        GrammarEltBase { code: 0xef40000000000000, rule: r#"(?^:^(?^:\@(?<predNot>\!)?P(?<predNum>[0-6]) )?LDL(?^:(?<E>\.E)?(?<U>\.U)?(?:\.(?<cache>CG|CI|CS|CV|IL|WT))?)(?^:(?<type>\.U8|\.S8|\.U16|\.S16||\.32|\.64|\.128)) (?^:(?<r0>(?^:[a-zA-Z_]\w*))), (?^:\[(?:(?<r8>(?^:[a-zA-Z_]\w*))|(?<nor8>))(?:\s*\+?\s*(?^:(?<i20w24>\-?(?^:(?^:0[xX][0-9a-fA-F]+)|(?^:\d+[xX]<[^>]+>)|\d+))))?\]);)"#, itype: InstrClass::Gmem },
    ]),
        ("LDS", vec![
        GrammarEltBase { code: 0xef48000000000000, rule: r#"(?^:^(?^:\@(?<predNot>\!)?P(?<predNum>[0-6]) )?LDS(?^:(?<E>\.E)?(?<U>\.U)?(?:\.(?<cache>CG|CI|CS|CV|IL|WT))?)(?^:(?<type>\.U8|\.S8|\.U16|\.S16||\.32|\.64|\.128)) (?^:(?<r0>(?^:[a-zA-Z_]\w*))), (?^:\[(?:(?<r8>(?^:[a-zA-Z_]\w*))|(?<nor8>))(?:\s*\+?\s*(?^:(?<i20w24>\-?(?^:(?^:0[xX][0-9a-fA-F]+)|(?^:\d+[xX]<[^>]+>)|\d+))))?\]);)"#, itype: InstrClass::Smem },
    ]),
        ("LEA", vec![
        GrammarEltBase { code: 0x5bd0000000000000, rule: r#"(?^:^(?^:\@(?<predNot>\!)?P(?<predNum>[0-6]) )?LEA (?^:(?<p48>(?^:P[0-6T]))), (?^:(?<r0>(?^:[a-zA-Z_]\w*))(?<CC>\.CC)?), (?^:(?<r8neg>\-)?(?<r8abs>\|)?(?<r8>(?^:[a-zA-Z_]\w*))\|?(?:\.(?<r8part>H0|H1|B0|B1|B2|B3|H0_H0|H1_H1|F32))?(?<reuse1>\.reuse)?), (?^:(?^:(?<i20>(?<neg>\-)?(?^:(?^:0[xX][0-9a-fA-F]+)|(?^:\d+[xX]<[^>]+>)|\d+))(?<r20neg>\.NEG)?)|(?^:(?<r20neg>\-)?(?<r20abs>\|)?c\[(?<c34>(?^:0[xX][0-9a-fA-F]+))\]\s*\[(?<c20>(?^:0[xX][0-9a-fA-F]+))\]\|?(?:\.(?<r20part>H0|H1|B0|B1|B2|B3))?)|(?^:(?<r20neg>\-)?(?<r20abs>\|)?(?<r20>(?^:[a-zA-Z_]\w*))\|?(?:\.(?<r20part>H0|H1|B0|B1|B2|B3|H0_H0|H1_H1))?(?<reuse2>\.reuse)?));)"#, itype: InstrClass::Cmp },
        GrammarEltBase { code: 0x5bd7000000000000, rule: r#"(?^:^(?^:\@(?<predNot>\!)?P(?<predNum>[0-6]) )?LEA (?^:(?<r0>(?^:[a-zA-Z_]\w*))(?<CC>\.CC)?), (?^:(?<r8neg>\-)?(?<r8abs>\|)?(?<r8>(?^:[a-zA-Z_]\w*))\|?(?:\.(?<r8part>H0|H1|B0|B1|B2|B3|H0_H0|H1_H1|F32))?(?<reuse1>\.reuse)?), (?^:(?^:(?<i20>(?<neg>\-)?(?^:(?^:0[xX][0-9a-fA-F]+)|(?^:\d+[xX]<[^>]+>)|\d+))(?<r20neg>\.NEG)?)|(?^:(?<r20neg>\-)?(?<r20abs>\|)?c\[(?<c34>(?^:0[xX][0-9a-fA-F]+))\]\s*\[(?<c20>(?^:0[xX][0-9a-fA-F]+))\]\|?(?:\.(?<r20part>H0|H1|B0|B1|B2|B3))?)|(?^:(?<r20neg>\-)?(?<r20abs>\|)?(?<r20>(?^:[a-zA-Z_]\w*))\|?(?:\.(?<r20part>H0|H1|B0|B1|B2|B3|H0_H0|H1_H1))?(?<reuse2>\.reuse)?)), (?^:(?<i39w8>\-?(?^:(?^:0[xX][0-9a-fA-F]+)|(?^:\d+[xX]<[^>]+>)|\d+)));)"#, itype: InstrClass::Shft },
        GrammarEltBase { code: 0x5bdf004000000000, rule: r#"(?^:^(?^:\@(?<predNot>\!)?P(?<predNum>[0-6]) )?LEA\.HI(?^:(?<X>\.X)?) (?^:(?<r0>(?^:[a-zA-Z_]\w*))(?<CC>\.CC)?), (?^:(?<r8neg>\-)?(?<r8abs>\|)?(?<r8>(?^:[a-zA-Z_]\w*))\|?(?:\.(?<r8part>H0|H1|B0|B1|B2|B3|H0_H0|H1_H1|F32))?(?<reuse1>\.reuse)?), (?^:(?<r20neg>\-)?(?<r20abs>\|)?(?<r20>(?^:[a-zA-Z_]\w*))\|?(?:\.(?<r20part>H0|H1|B0|B1|B2|B3|H0_H0|H1_H1))?(?<reuse2>\.reuse)?), (?^:(?<r39neg>\-)?(?<r39>(?^:[a-zA-Z_]\w*))(?:\.(?<r39part>H0|H1|H0_H0|H1_H1|F32))?(?<reuse3>\.reuse)?), (?^:(?<i28w8>(?^:(?^:0[xX][0-9a-fA-F]+)|(?^:\d+[xX]<[^>]+>)|\d+)));)"#, itype: InstrClass::Shft },
        GrammarEltBase { code: 0xa07000000000000, rule: r#"(?^:^(?^:\@(?<predNot>\!)?P(?<predNum>[0-6]) )?LEA\.HI(?^:(?<X>\.X)?) (?^:(?<r0>(?^:[a-zA-Z_]\w*))(?<CC>\.CC)?), (?^:(?<r8neg>\-)?(?<r8abs>\|)?(?<r8>(?^:[a-zA-Z_]\w*))\|?(?:\.(?<r8part>H0|H1|B0|B1|B2|B3|H0_H0|H1_H1|F32))?(?<reuse1>\.reuse)?), (?^:(?<r20neg>\-)?(?<r20abs>\|)?c\[(?<c34>(?^:0[xX][0-9a-fA-F]+))\]\s*\[(?<c20>(?^:0[xX][0-9a-fA-F]+))\]\|?(?:\.(?<r20part>H0|H1|B0|B1|B2|B3))?), (?^:(?<r39neg>\-)?(?<r39>(?^:[a-zA-Z_]\w*))(?:\.(?<r39part>H0|H1|H0_H0|H1_H1|F32))?(?<reuse3>\.reuse)?), (?^:(?<i51w5>(?^:(?^:0[xX][0-9a-fA-F]+)|(?^:\d+[xX]<[^>]+>)|\d+)));)"#, itype: InstrClass::Shft },
    ]),
        ("LOP", vec![
        GrammarEltBase { code: 0x5c40000000000000, rule: r#"(?^:^(?^:\@(?<predNot>\!)?P(?<predNum>[0-6]) )?LOP(?^:\.(?<bool>AND|OR|XOR|PASS_B))(?^:(?:\.(?<z>NZ|Z) (?^:(?<p48>(?^:P[0-6T]))),|(?<noz>))) (?^:(?<r0>(?^:[a-zA-Z_]\w*))), (?^:(?<r8neg>\-)?(?<r8abs>\|)?(?<r8>(?^:[a-zA-Z_]\w*))\|?(?:\.(?<r8part>H0|H1|B0|B1|B2|B3|H0_H0|H1_H1|F32))?(?<reuse1>\.reuse)?), (?<INV>~)?(?^:(?^:(?<i20>(?<neg>\-)?(?^:(?^:0[xX][0-9a-fA-F]+)|(?^:\d+[xX]<[^>]+>)|\d+))(?<r20neg>\.NEG)?)|(?^:(?<r20neg>\-)?(?<r20abs>\|)?c\[(?<c34>(?^:0[xX][0-9a-fA-F]+))\]\s*\[(?<c20>(?^:0[xX][0-9a-fA-F]+))\]\|?(?:\.(?<r20part>H0|H1|B0|B1|B2|B3))?)|(?^:(?<r20neg>\-)?(?<r20abs>\|)?(?<r20>(?^:[a-zA-Z_]\w*))\|?(?:\.(?<r20part>H0|H1|B0|B1|B2|B3|H0_H0|H1_H1))?(?<reuse2>\.reuse)?))(?<INV>\.INV)?;)"#, itype: InstrClass::X32 },
    ]),
        ("LOP3", vec![
        GrammarEltBase { code: 0x5be7000000000000, rule: r#"(?^:^(?^:\@(?<predNot>\!)?P(?<predNum>[0-6]) )?LOP3\.LUT (?^:(?<r0>(?^:[a-zA-Z_]\w*))), (?^:(?<r8neg>\-)?(?<r8abs>\|)?(?<r8>(?^:[a-zA-Z_]\w*))\|?(?:\.(?<r8part>H0|H1|B0|B1|B2|B3|H0_H0|H1_H1|F32))?(?<reuse1>\.reuse)?), (?^:(?<r20neg>\-)?(?<r20abs>\|)?(?<r20>(?^:[a-zA-Z_]\w*))\|?(?:\.(?<r20part>H0|H1|B0|B1|B2|B3|H0_H0|H1_H1))?(?<reuse2>\.reuse)?), (?^:(?<r39neg>\-)?(?<r39>(?^:[a-zA-Z_]\w*))(?:\.(?<r39part>H0|H1|H0_H0|H1_H1|F32))?(?<reuse3>\.reuse)?), (?^:(?<i28w8>(?^:(?^:0[xX][0-9a-fA-F]+)|(?^:\d+[xX]<[^>]+>)|\d+)));)"#, itype: InstrClass::X32 },
        GrammarEltBase { code: 0x3c00000000000000, rule: r#"(?^:^(?^:\@(?<predNot>\!)?P(?<predNum>[0-6]) )?LOP3\.LUT (?^:(?<r0>(?^:[a-zA-Z_]\w*))), (?^:(?<r8neg>\-)?(?<r8abs>\|)?(?<r8>(?^:[a-zA-Z_]\w*))\|?(?:\.(?<r8part>H0|H1|B0|B1|B2|B3|H0_H0|H1_H1|F32))?(?<reuse1>\.reuse)?), (?^:(?<i20>(?<neg>\-)?(?^:(?^:0[xX][0-9a-fA-F]+)|(?^:\d+[xX]<[^>]+>)|\d+))(?<r20neg>\.NEG)?), (?^:(?<r39neg>\-)?(?<r39>(?^:[a-zA-Z_]\w*))(?:\.(?<r39part>H0|H1|H0_H0|H1_H1|F32))?(?<reuse3>\.reuse)?), (?^:(?<i48w8>(?^:(?^:0[xX][0-9a-fA-F]+)|(?^:\d+[xX]<[^>]+>)|\d+)));)"#, itype: InstrClass::X32 },
    ]),
        ("LOP32I", vec![
        GrammarEltBase { code: 0x400000000000000, rule: r#"(?^:^(?^:\@(?<predNot>\!)?P(?<predNum>[0-6]) )?LOP32I(?^:\.(?<bool>AND|OR|XOR|PASS_B)) (?^:(?<r0>(?^:[a-zA-Z_]\w*))), (?^:(?<r8neg>\-)?(?<r8abs>\|)?(?<r8>(?^:[a-zA-Z_]\w*))\|?(?:\.(?<r8part>H0|H1|B0|B1|B2|B3|H0_H0|H1_H1|F32))?(?<reuse1>\.reuse)?), (?^:(?<i20w32>\-?(?^:(?^:0[xX][0-9a-fA-F]+)|(?^:\d+[xX]<[^>]+>)|\d+)));)"#, itype: InstrClass::X32 },
    ]),
        ("MEMBAR", vec![
        GrammarEltBase { code: 0xef98000000000000, rule: r#"(?^:^(?^:\@(?<predNot>\!)?P(?<predNum>[0-6]) )?MEMBAR(?^:\.(?<mode>CTA|GL|SYS));)"#, itype: InstrClass::X32 },
    ]),
        ("MOV", vec![
        GrammarEltBase { code: 0x5c98078000000000, rule: r#"(?^:^(?^:\@(?<predNot>\!)?P(?<predNum>[0-6]) )?MOV (?^:(?<r0>(?^:[a-zA-Z_]\w*))), (?^:(?^:(?<i20>(?<neg>\-)?(?^:(?^:0[xX][0-9a-fA-F]+)|(?^:\d+[xX]<[^>]+>)|\d+))(?<r20neg>\.NEG)?)|(?^:(?<r20neg>\-)?(?<r20abs>\|)?c\[(?<c34>(?^:0[xX][0-9a-fA-F]+))\]\s*\[(?<c20>(?^:0[xX][0-9a-fA-F]+))\]\|?(?:\.(?<r20part>H0|H1|B0|B1|B2|B3))?)|(?^:(?<r20neg>\-)?(?<r20abs>\|)?(?<r20>(?^:[a-zA-Z_]\w*))\|?(?:\.(?<r20part>H0|H1|B0|B1|B2|B3|H0_H0|H1_H1))?(?<reuse2>\.reuse)?));)"#, itype: InstrClass::X32 },
    ]),
        ("MOV32I", vec![
        GrammarEltBase { code: 0x10000000000f000, rule: r#"(?^:^(?^:\@(?<predNot>\!)?P(?<predNum>[0-6]) )?MOV32I (?^:(?<r0>(?^:[a-zA-Z_]\w*))), (?:(?^:(?<i20w32>\-?(?^:(?^:0[xX][0-9a-fA-F]+)|(?^:\d+[xX]<[^>]+>)|\d+)))|(?^:(?<f20w32>(?:\-|\+|)(?i:(?^:0[xX][0-9a-fA-F]+)|inf\s*|\d+(?:\.\d+(?:e[\+\-]\d+)?)?))));)"#, itype: InstrClass::X32 },
    ]),
        ("MUFU", vec![
        GrammarEltBase { code: 0x5080000000000000, rule: r#"(?^:^(?^:\@(?<predNot>\!)?P(?<predNum>[0-6]) )?MUFU(?^:\.(?<func>COS|SIN|EX2|LG2|RCP|RSQ|RCP64H|RSQ64H)) (?^:(?<r0>(?^:[a-zA-Z_]\w*))), (?^:(?<r8neg>\-)?(?<r8abs>\|)?(?<r8>(?^:[a-zA-Z_]\w*))\|?(?:\.(?<r8part>H0|H1|B0|B1|B2|B3|H0_H0|H1_H1|F32))?(?<reuse1>\.reuse)?);)"#, itype: InstrClass::Qtr },
    ]),
        ("NOP", vec![
        GrammarEltBase { code: 0x50b0000000000f00, rule: r#"(?^:^(?^:\@(?<predNot>\!)?P(?<predNum>[0-6]) )?NOP;)"#, itype: InstrClass::X32 },
    ]),
        ("P2R", vec![
        GrammarEltBase { code: 0x38e8000000000000, rule: r#"(?^:^(?^:\@(?<predNot>\!)?P(?<predNum>[0-6]) )?P2R (?^:(?<r0>(?^:[a-zA-Z_]\w*))), PR, (?^:(?<r8neg>\-)?(?<r8abs>\|)?(?<r8>(?^:[a-zA-Z_]\w*))\|?(?:\.(?<r8part>H0|H1|B0|B1|B2|B3|H0_H0|H1_H1|F32))?(?<reuse1>\.reuse)?), (?^:(?<i20w7>(?^:(?^:0[xX][0-9a-fA-F]+)|(?^:\d+[xX]<[^>]+>)|\d+)));)"#, itype: InstrClass::X32 },
    ]),
        ("PBK", vec![
        GrammarEltBase { code: 0xe2a0000000000000, rule: r#"(?^:^(?^:(?<noPred>))?PBK (?^:(?<i20w24>\-?(?^:(?^:0[xX][0-9a-fA-F]+)|(?^:\d+[xX]<[^>]+>)|\d+)));)"#, itype: InstrClass::X32 },
    ]),
        ("PCNT", vec![
        GrammarEltBase { code: 0xe2b0000000000000, rule: r#"(?^:^(?^:(?<noPred>))?PCNT (?^:(?<i20w24>\-?(?^:(?^:0[xX][0-9a-fA-F]+)|(?^:\d+[xX]<[^>]+>)|\d+)));)"#, itype: InstrClass::X32 },
    ]),
        ("PEXIT", vec![
        GrammarEltBase { code: 0x0, rule: r#"(?^:^(?^:\@(?<predNot>\!)?P(?<predNum>[0-6]) )?PEXIT[^;]*;)"#, itype: InstrClass::X32 },
    ]),
        ("POPC", vec![
        GrammarEltBase { code: 0x5c08000000000000, rule: r#"(?^:^(?^:\@(?<predNot>\!)?P(?<predNum>[0-6]) )?POPC (?^:(?<r0>(?^:[a-zA-Z_]\w*))), (?^:(?<r20neg>\-)?(?<r20abs>\|)?(?<r20>(?^:[a-zA-Z_]\w*))\|?(?:\.(?<r20part>H0|H1|B0|B1|B2|B3|H0_H0|H1_H1))?(?<reuse2>\.reuse)?);)"#, itype: InstrClass::S2r },
    ]),
        ("PRET", vec![
        GrammarEltBase { code: 0x0, rule: r#"(?^:^(?^:\@(?<predNot>\!)?P(?<predNum>[0-6]) )?PRET[^;]*;)"#, itype: InstrClass::X32 },
    ]),
        ("PRMT", vec![
        GrammarEltBase { code: 0x5bc0000000000000, rule: r#"(?^:^(?^:\@(?<predNot>\!)?P(?<predNum>[0-6]) )?PRMT(?^:(?:\.(?<mode>F4E|B4E|RC8|ECL|ECR|RC16))?) (?^:(?<r0>(?^:[a-zA-Z_]\w*))), (?^:(?<r8neg>\-)?(?<r8abs>\|)?(?<r8>(?^:[a-zA-Z_]\w*))\|?(?:\.(?<r8part>H0|H1|B0|B1|B2|B3|H0_H0|H1_H1|F32))?(?<reuse1>\.reuse)?), (?^:(?^:(?<i20>(?<neg>\-)?(?^:(?^:0[xX][0-9a-fA-F]+)|(?^:\d+[xX]<[^>]+>)|\d+))(?<r20neg>\.NEG)?)|(?^:(?<r20neg>\-)?(?<r20abs>\|)?c\[(?<c34>(?^:0[xX][0-9a-fA-F]+))\]\s*\[(?<c20>(?^:0[xX][0-9a-fA-F]+))\]\|?(?:\.(?<r20part>H0|H1|B0|B1|B2|B3))?)|(?^:(?<r20neg>\-)?(?<r20abs>\|)?(?<r20>(?^:[a-zA-Z_]\w*))\|?(?:\.(?<r20part>H0|H1|B0|B1|B2|B3|H0_H0|H1_H1))?(?<reuse2>\.reuse)?)), (?^:(?^:(?<r39neg>\-)?c\[(?<c34>(?^:0[xX][0-9a-fA-F]+))\]\s*\[(?<c39>(?^:0[xX][0-9a-fA-F]+))\])|(?^:(?<r39neg>\-)?(?<r39>(?^:[a-zA-Z_]\w*))(?:\.(?<r39part>H0|H1|H0_H0|H1_H1|F32))?(?<reuse3>\.reuse)?));)"#, itype: InstrClass::X32 },
    ]),
        ("PSET", vec![
        GrammarEltBase { code: 0x5088000000000000, rule: r#"(?^:^(?^:\@(?<predNot>\!)?P(?<predNum>[0-6]) )?PSET(?^:\.(?<bool2>AND|OR|XOR))(?^:\.(?<bool>AND|OR|XOR|PASS_B)) (?^:(?<r0>(?^:[a-zA-Z_]\w*))), (?^:(?<p12not>\!)?(?<p12>(?^:P[0-6T]))), (?^:(?<p29not>\!)?(?<p29>(?^:P[0-6T]))), (?^:(?<p39not>\!)?(?<p39>(?^:P[0-6T])));)"#, itype: InstrClass::Cmp },
    ]),
        ("PSETP", vec![
        GrammarEltBase { code: 0x5090000000000000, rule: r#"(?^:^(?^:\@(?<predNot>\!)?P(?<predNum>[0-6]) )?PSETP(?^:\.(?<bool2>AND|OR|XOR))(?^:\.(?<bool>AND|OR|XOR|PASS_B)) (?^:(?<p3>(?^:P[0-6T]))), (?^:(?<p0>(?^:P[0-6T]))), (?^:(?<p12not>\!)?(?<p12>(?^:P[0-6T]))), (?^:(?<p29not>\!)?(?<p29>(?^:P[0-6T]))), (?^:(?<p39not>\!)?(?<p39>(?^:P[0-6T])));)"#, itype: InstrClass::Cmp },
    ]),
        ("R2B", vec![
        GrammarEltBase { code: 0x0, rule: r#"(?^:^(?^:\@(?<predNot>\!)?P(?<predNum>[0-6]) )?R2B[^;]*;)"#, itype: InstrClass::X32 },
    ]),
        ("R2P", vec![
        GrammarEltBase { code: 0x38f0000000000000, rule: r#"(?^:^(?^:\@(?<predNot>\!)?P(?<predNum>[0-6]) )?R2P PR, (?^:(?<r8neg>\-)?(?<r8abs>\|)?(?<r8>(?^:[a-zA-Z_]\w*))\|?(?:\.(?<r8part>H0|H1|B0|B1|B2|B3|H0_H0|H1_H1|F32))?(?<reuse1>\.reuse)?), (?^:(?<i20w7>(?^:(?^:0[xX][0-9a-fA-F]+)|(?^:\d+[xX]<[^>]+>)|\d+)));)"#, itype: InstrClass::Shft },
    ]),
        ("RED", vec![
        GrammarEltBase { code: 0xebf8000000000000, rule: r#"(?^:^(?^:\@(?<predNot>\!)?P(?<predNum>[0-6]) )?RED(?^:(?<E>\.E)?(?:\.(?<mode>ADD|MIN|MAX|INC|DEC|AND|OR|XOR|EXCH|CAS))(?<type>|\.S32|\.U64|\.F(?:16x2|32)\.FTZ\.RN|\.S64|\.64)) (?^:\[(?:(?<r8>(?^:[a-zA-Z_]\w*))|(?<nor8>))(?:\s*\+?\s*(?^:(?<i28w20>\-?(?^:(?^:0[xX][0-9a-fA-F]+)|(?^:\d+[xX]<[^>]+>)|\d+))))?\]), (?^:(?<r0>(?^:[a-zA-Z_]\w*)));)"#, itype: InstrClass::Gmem },
    ]),
        ("RET", vec![
        GrammarEltBase { code: 0xe32000000000000f, rule: r#"(?^:^(?^:\@(?<predNot>\!)?P(?<predNum>[0-6]) )?RET;)"#, itype: InstrClass::X32 },
    ]),
        ("RRO", vec![
        GrammarEltBase { code: 0x5c90000000000000, rule: r#"(?^:^(?^:\@(?<predNot>\!)?P(?<predNum>[0-6]) )?RRO(?^:\.(?<func>SINCOS|EX2)) (?^:(?<r0>(?^:[a-zA-Z_]\w*))), (?^:(?<r20neg>\-)?(?<r20abs>\|)?(?<r20>(?^:[a-zA-Z_]\w*))\|?(?:\.(?<r20part>H0|H1|B0|B1|B2|B3|H0_H0|H1_H1))?(?<reuse2>\.reuse)?);)"#, itype: InstrClass::Rro },
    ]),
        ("S2R", vec![
        GrammarEltBase { code: 0xf0c8000000000000, rule: r#"(?^:^(?^:\@(?<predNot>\!)?P(?<predNum>[0-6]) )?S2R (?^:(?<r0>(?^:[a-zA-Z_]\w*))), (?^:SR_(?<sr>\S+));)"#, itype: InstrClass::S2r },
    ]),
        ("SEL", vec![
        GrammarEltBase { code: 0x5ca0000000000000, rule: r#"(?^:^(?^:\@(?<predNot>\!)?P(?<predNum>[0-6]) )?SEL (?^:(?<r0>(?^:[a-zA-Z_]\w*))), (?^:(?<r8neg>\-)?(?<r8abs>\|)?(?<r8>(?^:[a-zA-Z_]\w*))\|?(?:\.(?<r8part>H0|H1|B0|B1|B2|B3|H0_H0|H1_H1|F32))?(?<reuse1>\.reuse)?), (?^:(?^:(?<i20>(?<neg>\-)?(?^:(?^:0[xX][0-9a-fA-F]+)|(?^:\d+[xX]<[^>]+>)|\d+))(?<r20neg>\.NEG)?)|(?^:(?<r20neg>\-)?(?<r20abs>\|)?c\[(?<c34>(?^:0[xX][0-9a-fA-F]+))\]\s*\[(?<c20>(?^:0[xX][0-9a-fA-F]+))\]\|?(?:\.(?<r20part>H0|H1|B0|B1|B2|B3))?)|(?^:(?<r20neg>\-)?(?<r20abs>\|)?(?<r20>(?^:[a-zA-Z_]\w*))\|?(?:\.(?<r20part>H0|H1|B0|B1|B2|B3|H0_H0|H1_H1))?(?<reuse2>\.reuse)?)), (?^:(?<p39not>\!)?(?<p39>(?^:P[0-6T])));)"#, itype: InstrClass::X32 },
    ]),
        ("SHF", vec![
        GrammarEltBase { code: 0x5bf8000000000000, rule: r#"(?^:^(?^:\@(?<predNot>\!)?P(?<predNum>[0-6]) )?SHF\.L(?^:(?<W>\.W)?(?:\.(?<type>U64|S64))?(?<HI>\.HI)?) (?^:(?<r0>(?^:[a-zA-Z_]\w*))), (?^:(?<r8neg>\-)?(?<r8abs>\|)?(?<r8>(?^:[a-zA-Z_]\w*))\|?(?:\.(?<r8part>H0|H1|B0|B1|B2|B3|H0_H0|H1_H1|F32))?(?<reuse1>\.reuse)?), (?^:(?^:(?<i20>(?<neg>\-)?(?^:(?^:0[xX][0-9a-fA-F]+)|(?^:\d+[xX]<[^>]+>)|\d+))(?<r20neg>\.NEG)?)|(?^:(?<r20neg>\-)?(?<r20abs>\|)?(?<r20>(?^:[a-zA-Z_]\w*))\|?(?:\.(?<r20part>H0|H1|B0|B1|B2|B3|H0_H0|H1_H1))?(?<reuse2>\.reuse)?)), (?^:(?<r39neg>\-)?(?<r39>(?^:[a-zA-Z_]\w*))(?:\.(?<r39part>H0|H1|H0_H0|H1_H1|F32))?(?<reuse3>\.reuse)?);)"#, itype: InstrClass::Shft },
        GrammarEltBase { code: 0x5cf8000000000000, rule: r#"(?^:^(?^:\@(?<predNot>\!)?P(?<predNum>[0-6]) )?SHF\.R(?^:(?<W>\.W)?(?:\.(?<type>U64|S64))?(?<HI>\.HI)?) (?^:(?<r0>(?^:[a-zA-Z_]\w*))), (?^:(?<r8neg>\-)?(?<r8abs>\|)?(?<r8>(?^:[a-zA-Z_]\w*))\|?(?:\.(?<r8part>H0|H1|B0|B1|B2|B3|H0_H0|H1_H1|F32))?(?<reuse1>\.reuse)?), (?^:(?^:(?<i20>(?<neg>\-)?(?^:(?^:0[xX][0-9a-fA-F]+)|(?^:\d+[xX]<[^>]+>)|\d+))(?<r20neg>\.NEG)?)|(?^:(?<r20neg>\-)?(?<r20abs>\|)?(?<r20>(?^:[a-zA-Z_]\w*))\|?(?:\.(?<r20part>H0|H1|B0|B1|B2|B3|H0_H0|H1_H1))?(?<reuse2>\.reuse)?)), (?^:(?<r39neg>\-)?(?<r39>(?^:[a-zA-Z_]\w*))(?:\.(?<r39part>H0|H1|H0_H0|H1_H1|F32))?(?<reuse3>\.reuse)?);)"#, itype: InstrClass::Shft },
    ]),
        ("SHFL", vec![
        GrammarEltBase { code: 0xef10000000000000, rule: r#"(?^:^(?^:\@(?<predNot>\!)?P(?<predNum>[0-6]) )?SHFL(?^:\.(?<mode>IDX|UP|DOWN|BFLY)) (?^:(?<p48>(?^:P[0-6T]))), (?^:(?<r0>(?^:[a-zA-Z_]\w*))), (?^:(?<r8neg>\-)?(?<r8abs>\|)?(?<r8>(?^:[a-zA-Z_]\w*))\|?(?:\.(?<r8part>H0|H1|B0|B1|B2|B3|H0_H0|H1_H1|F32))?(?<reuse1>\.reuse)?), (?:(?^:(?<i20w8>(?^:(?^:0[xX][0-9a-fA-F]+)|(?^:\d+[xX]<[^>]+>)|\d+)))|(?^:(?<r20neg>\-)?(?<r20abs>\|)?(?<r20>(?^:[a-zA-Z_]\w*))\|?(?:\.(?<r20part>H0|H1|B0|B1|B2|B3|H0_H0|H1_H1))?(?<reuse2>\.reuse)?)), (?:(?^:(?<i34w13>(?^:(?^:0[xX][0-9a-fA-F]+)|(?^:\d+[xX]<[^>]+>)|\d+)))|(?^:(?<r39neg>\-)?(?<r39>(?^:[a-zA-Z_]\w*))(?:\.(?<r39part>H0|H1|H0_H0|H1_H1|F32))?(?<reuse3>\.reuse)?));)"#, itype: InstrClass::Smem },
    ]),
        ("SHL", vec![
        GrammarEltBase { code: 0x5c48000000000000, rule: r#"(?^:^(?^:\@(?<predNot>\!)?P(?<predNum>[0-6]) )?SHL(?<W>\.W)? (?^:(?<r0>(?^:[a-zA-Z_]\w*))), (?^:(?<r8neg>\-)?(?<r8abs>\|)?(?<r8>(?^:[a-zA-Z_]\w*))\|?(?:\.(?<r8part>H0|H1|B0|B1|B2|B3|H0_H0|H1_H1|F32))?(?<reuse1>\.reuse)?), (?^:(?^:(?<i20>(?<neg>\-)?(?^:(?^:0[xX][0-9a-fA-F]+)|(?^:\d+[xX]<[^>]+>)|\d+))(?<r20neg>\.NEG)?)|(?^:(?<r20neg>\-)?(?<r20abs>\|)?c\[(?<c34>(?^:0[xX][0-9a-fA-F]+))\]\s*\[(?<c20>(?^:0[xX][0-9a-fA-F]+))\]\|?(?:\.(?<r20part>H0|H1|B0|B1|B2|B3))?)|(?^:(?<r20neg>\-)?(?<r20abs>\|)?(?<r20>(?^:[a-zA-Z_]\w*))\|?(?:\.(?<r20part>H0|H1|B0|B1|B2|B3|H0_H0|H1_H1))?(?<reuse2>\.reuse)?));)"#, itype: InstrClass::Shft },
    ]),
        ("SHR", vec![
        GrammarEltBase { code: 0x5c29000000000000, rule: r#"(?^:^(?^:\@(?<predNot>\!)?P(?<predNum>[0-6]) )?SHR(?^:(?<U32>\.U32)?) (?^:(?<r0>(?^:[a-zA-Z_]\w*))), (?^:(?<r8neg>\-)?(?<r8abs>\|)?(?<r8>(?^:[a-zA-Z_]\w*))\|?(?:\.(?<r8part>H0|H1|B0|B1|B2|B3|H0_H0|H1_H1|F32))?(?<reuse1>\.reuse)?), (?^:(?^:(?<i20>(?<neg>\-)?(?^:(?^:0[xX][0-9a-fA-F]+)|(?^:\d+[xX]<[^>]+>)|\d+))(?<r20neg>\.NEG)?)|(?^:(?<r20neg>\-)?(?<r20abs>\|)?c\[(?<c34>(?^:0[xX][0-9a-fA-F]+))\]\s*\[(?<c20>(?^:0[xX][0-9a-fA-F]+))\]\|?(?:\.(?<r20part>H0|H1|B0|B1|B2|B3))?)|(?^:(?<r20neg>\-)?(?<r20abs>\|)?(?<r20>(?^:[a-zA-Z_]\w*))\|?(?:\.(?<r20part>H0|H1|B0|B1|B2|B3|H0_H0|H1_H1))?(?<reuse2>\.reuse)?));)"#, itype: InstrClass::Shft },
    ]),
        ("SSY", vec![
        GrammarEltBase { code: 0xe290000000000000, rule: r#"(?^:^(?^:(?<noPred>))?SSY (?^:(?<i20w24>\-?(?^:(?^:0[xX][0-9a-fA-F]+)|(?^:\d+[xX]<[^>]+>)|\d+)));)"#, itype: InstrClass::X32 },
    ]),
        ("ST", vec![
        GrammarEltBase { code: 0xa000000000000000, rule: r#"(?^:^(?^:\@(?<predNot>\!)?P(?<predNum>[0-6]) )?ST(?^:(?<E>\.E)?(?<U>\.U)?(?:\.(?<cache>CG|CI|CS|CV|IL|WT))?)(?^:(?<type>\.U8|\.S8|\.U16|\.S16||\.32|\.64|\.128)) (?^:\[(?:(?<r8>(?^:[a-zA-Z_]\w*))|(?<nor8>))(?:\s*\+?\s*(?^:(?<i20w24>\-?(?^:(?^:0[xX][0-9a-fA-F]+)|(?^:\d+[xX]<[^>]+>)|\d+))))?\]), (?^:(?<r0>(?^:[a-zA-Z_]\w*))), (?^:(?<p58>(?^:P[0-6T])));)"#, itype: InstrClass::Gmem },
    ]),
        ("STG", vec![
        GrammarEltBase { code: 0xeed8000000000000, rule: r#"(?^:^(?^:\@(?<predNot>\!)?P(?<predNum>[0-6]) )?STG(?^:(?<E>\.E)?(?<U>\.U)?(?:\.(?<cache>CG|CI|CS|CV|IL|WT))?)(?^:(?<type>\.U8|\.S8|\.U16|\.S16||\.32|\.64|\.128)) (?^:\[(?:(?<r8>(?^:[a-zA-Z_]\w*))|(?<nor8>))(?:\s*\+?\s*(?^:(?<i20w24>\-?(?^:(?^:0[xX][0-9a-fA-F]+)|(?^:\d+[xX]<[^>]+>)|\d+))))?\]), (?^:(?<r0>(?^:[a-zA-Z_]\w*)));)"#, itype: InstrClass::Gmem },
    ]),
        ("STL", vec![
        GrammarEltBase { code: 0xef50000000000000, rule: r#"(?^:^(?^:\@(?<predNot>\!)?P(?<predNum>[0-6]) )?STL(?^:(?<E>\.E)?(?<U>\.U)?(?:\.(?<cache>CG|CI|CS|CV|IL|WT))?)(?^:(?<type>\.U8|\.S8|\.U16|\.S16||\.32|\.64|\.128)) (?^:\[(?:(?<r8>(?^:[a-zA-Z_]\w*))|(?<nor8>))(?:\s*\+?\s*(?^:(?<i20w24>\-?(?^:(?^:0[xX][0-9a-fA-F]+)|(?^:\d+[xX]<[^>]+>)|\d+))))?\]), (?^:(?<r0>(?^:[a-zA-Z_]\w*)));)"#, itype: InstrClass::Gmem },
    ]),
        ("STS", vec![
        GrammarEltBase { code: 0xef58000000000000, rule: r#"(?^:^(?^:\@(?<predNot>\!)?P(?<predNum>[0-6]) )?STS(?^:(?<E>\.E)?(?<U>\.U)?(?:\.(?<cache>CG|CI|CS|CV|IL|WT))?)(?^:(?<type>\.U8|\.S8|\.U16|\.S16||\.32|\.64|\.128)) (?^:\[(?:(?<r8>(?^:[a-zA-Z_]\w*))|(?<nor8>))(?:\s*\+?\s*(?^:(?<i20w24>\-?(?^:(?^:0[xX][0-9a-fA-F]+)|(?^:\d+[xX]<[^>]+>)|\d+))))?\]), (?^:(?<r0>(?^:[a-zA-Z_]\w*)));)"#, itype: InstrClass::Smem },
    ]),
        ("SUATOM", vec![
        GrammarEltBase { code: 0x0, rule: r#"(?^:^(?^:\@(?<predNot>\!)?P(?<predNum>[0-6]) )?SUATOM[^;]*;)"#, itype: InstrClass::X32 },
    ]),
        ("SULD", vec![
        GrammarEltBase { code: 0x0, rule: r#"(?^:^(?^:\@(?<predNot>\!)?P(?<predNum>[0-6]) )?SULD[^;]*;)"#, itype: InstrClass::X32 },
    ]),
        ("SURED", vec![
        GrammarEltBase { code: 0x0, rule: r#"(?^:^(?^:\@(?<predNot>\!)?P(?<predNum>[0-6]) )?SURED[^;]*;)"#, itype: InstrClass::X32 },
    ]),
        ("SUST", vec![
        GrammarEltBase { code: 0x0, rule: r#"(?^:^(?^:\@(?<predNot>\!)?P(?<predNum>[0-6]) )?SUST[^;]*;)"#, itype: InstrClass::X32 },
    ]),
        ("SYNC", vec![
        GrammarEltBase { code: 0xf0f800000000000f, rule: r#"(?^:^(?^:\@(?<predNot>\!)?P(?<predNum>[0-6]) )?SYNC;)"#, itype: InstrClass::X32 },
    ]),
        ("TEX", vec![
        GrammarEltBase { code: 0x0, rule: r#"(?^:^(?^:\@(?<predNot>\!)?P(?<predNum>[0-6]) )?TEX[^;]*;)"#, itype: InstrClass::Gmem },
    ]),
        ("TEXS", vec![
        GrammarEltBase { code: 0x0, rule: r#"(?^:^(?^:\@(?<predNot>\!)?P(?<predNum>[0-6]) )?TEXS[^;]*;)"#, itype: InstrClass::Gmem },
    ]),
        ("TLD", vec![
        GrammarEltBase { code: 0xdd38000000000000, rule: r#"(?^:^(?^:\@(?<predNot>\!)?P(?<predNum>[0-6]) )?TLD\.B\.LZ\.(?^:(?<NODEP>NODEP\.)?(?:(?<reuse1>T)|(?<reuse2>P))) (?^:(?<r0>(?^:[a-zA-Z_]\w*))), (?^:(?<r8neg>\-)?(?<r8abs>\|)?(?<r8>(?^:[a-zA-Z_]\w*))\|?(?:\.(?<r8part>H0|H1|B0|B1|B2|B3|H0_H0|H1_H1|F32))?(?<reuse1>\.reuse)?), (?^:(?<r20neg>\-)?(?<r20abs>\|)?(?<r20>(?^:[a-zA-Z_]\w*))\|?(?:\.(?<r20part>H0|H1|B0|B1|B2|B3|H0_H0|H1_H1))?(?<reuse2>\.reuse)?), (?^:0[xX][0-9a-fA-F]+), \dD, (?^:(?<i31w4>(?^:(?^:0[xX][0-9a-fA-F]+)|(?^:\d+[xX]<[^>]+>)|\d+)));)"#, itype: InstrClass::Gmem },
    ]),
        ("TLD4", vec![
        GrammarEltBase { code: 0x0, rule: r#"(?^:^(?^:\@(?<predNot>\!)?P(?<predNum>[0-6]) )?TLD4[^;]*;)"#, itype: InstrClass::Gmem },
    ]),
        ("TLD4S", vec![
        GrammarEltBase { code: 0x0, rule: r#"(?^:^(?^:\@(?<predNot>\!)?P(?<predNum>[0-6]) )?TLD4S[^;]*;)"#, itype: InstrClass::Gmem },
    ]),
        ("TLDS", vec![
        GrammarEltBase { code: 0xda0000000ff00000, rule: r#"(?^:^(?^:\@(?<predNot>\!)?P(?<predNum>[0-6]) )?TLDS\.LZ\.(?^:(?<NODEP>NODEP\.)?(?:(?<reuse1>T)|(?<reuse2>P))) (?^:(?<r28>(?^:[a-zA-Z_]\w*))), (?^:(?<r0>(?^:[a-zA-Z_]\w*))), (?^:(?<r8neg>\-)?(?<r8abs>\|)?(?<r8>(?^:[a-zA-Z_]\w*))\|?(?:\.(?<r8part>H0|H1|B0|B1|B2|B3|H0_H0|H1_H1|F32))?(?<reuse1>\.reuse)?), (?^:(?<i36w20>(?^:(?^:0[xX][0-9a-fA-F]+)|(?^:\d+[xX]<[^>]+>)|\d+))), \dD, (?^:(?<chnls>R|RGBA));)"#, itype: InstrClass::Gmem },
    ]),
        ("TXQ", vec![
        GrammarEltBase { code: 0x0, rule: r#"(?^:^(?^:\@(?<predNot>\!)?P(?<predNum>[0-6]) )?TXQ[^;]*;)"#, itype: InstrClass::Gmem },
    ]),
        ("VABSDIFF", vec![
        GrammarEltBase { code: 0x5427000000000000, rule: r#"(?^:^(?^:\@(?<predNot>\!)?P(?<predNum>[0-6]) )?VABSDIFF(?^:(?:\.(?<UD>UD))?(?:\.(?<SD>SD))?(?:\.(?<sign1>[SU])(?<size1>8|16|32))?(?:\.(?<sign2>[SU])(?<size2>8|16|32))?)(?^:(?<SAT>\.SAT)?)(?^:(?:\.(?<mode>MRG_16[HL]|MRG_8B[0-3]|ACC|MIN|MAX))?) (?^:(?<r0>(?^:[a-zA-Z_]\w*))), (?^:(?<r8neg>\-)?(?<r8abs>\|)?(?<r8>(?^:[a-zA-Z_]\w*))\|?(?:\.(?<r8part>H0|H1|B0|B1|B2|B3|H0_H0|H1_H1|F32))?(?<reuse1>\.reuse)?), (?^:(?<r20neg>\-)?(?<r20abs>\|)?(?<r20>(?^:[a-zA-Z_]\w*))\|?(?:\.(?<r20part>H0|H1|B0|B1|B2|B3|H0_H0|H1_H1))?(?<reuse2>\.reuse)?), (?^:(?<r39neg>\-)?(?<r39>(?^:[a-zA-Z_]\w*))(?:\.(?<r39part>H0|H1|H0_H0|H1_H1|F32))?(?<reuse3>\.reuse)?);)"#, itype: InstrClass::Shft },
    ]),
        ("VADD", vec![
        GrammarEltBase { code: 0x2044000000000000, rule: r#"(?^:^(?^:\@(?<predNot>\!)?P(?<predNum>[0-6]) )?VADD(?^:(?:\.(?<UD>UD))?(?:\.(?<SD>SD))?(?:\.(?<sign1>[SU])(?<size1>8|16|32))?(?:\.(?<sign2>[SU])(?<size2>8|16|32))?)(?^:(?<SAT>\.SAT)?)(?^:(?:\.(?<mode>MRG_16[HL]|MRG_8B[0-3]|ACC|MIN|MAX))?) (?^:(?<r0>(?^:[a-zA-Z_]\w*))), (?^:(?<r8neg>\-)?(?<r8abs>\|)?(?<r8>(?^:[a-zA-Z_]\w*))\|?(?:\.(?<r8part>H0|H1|B0|B1|B2|B3|H0_H0|H1_H1|F32))?(?<reuse1>\.reuse)?), (?^:(?<r20neg>\-)?(?<r20abs>\|)?(?<r20>(?^:[a-zA-Z_]\w*))\|?(?:\.(?<r20part>H0|H1|B0|B1|B2|B3|H0_H0|H1_H1))?(?<reuse2>\.reuse)?), (?^:(?<r39neg>\-)?(?<r39>(?^:[a-zA-Z_]\w*))(?:\.(?<r39part>H0|H1|H0_H0|H1_H1|F32))?(?<reuse3>\.reuse)?);)"#, itype: InstrClass::Shft },
    ]),
        ("VMAD", vec![
        GrammarEltBase { code: 0x5f04000000000000, rule: r#"(?^:^(?^:\@(?<predNot>\!)?P(?<predNum>[0-6]) )?VMAD(?^:\.(?<sign1>[SU])(?<size1>16)\.(?<sign2>[SU])(?<size2>16)) (?^:(?<r0>(?^:[a-zA-Z_]\w*))), (?^:(?<r8neg>\-)?(?<r8abs>\|)?(?<r8>(?^:[a-zA-Z_]\w*))\|?(?:\.(?<r8part>H0|H1|B0|B1|B2|B3|H0_H0|H1_H1|F32))?(?<reuse1>\.reuse)?), (?^:(?<r20neg>\-)?(?<r20abs>\|)?(?<r20>(?^:[a-zA-Z_]\w*))\|?(?:\.(?<r20part>H0|H1|B0|B1|B2|B3|H0_H0|H1_H1))?(?<reuse2>\.reuse)?), (?^:(?<r39neg>\-)?(?<r39>(?^:[a-zA-Z_]\w*))(?:\.(?<r39part>H0|H1|H0_H0|H1_H1|F32))?(?<reuse3>\.reuse)?);)"#, itype: InstrClass::X32 },
        GrammarEltBase { code: 0x5f04000000000000, rule: r#"(?^:^(?^:\@(?<predNot>\!)?P(?<predNum>[0-6]) )?VMAD(?^:\.(?<sign1>[SU])(?<size1>8|16)\.(?<sign2>[SU])(?<size2>8|16)(?<PO>\.PO)?(?<SHR_7>\.SHR_7)?(?<SHR_15>\.SHR_15)?(?<SAT>\.SAT)?) (?^:(?<r0>(?^:[a-zA-Z_]\w*))), (?^:(?<r8neg>\-)?(?<r8abs>\|)?(?<r8>(?^:[a-zA-Z_]\w*))\|?(?:\.(?<r8part>H0|H1|B0|B1|B2|B3|H0_H0|H1_H1|F32))?(?<reuse1>\.reuse)?), (?^:(?<r20neg>\-)?(?<r20abs>\|)?(?<r20>(?^:[a-zA-Z_]\w*))\|?(?:\.(?<r20part>H0|H1|B0|B1|B2|B3|H0_H0|H1_H1))?(?<reuse2>\.reuse)?), (?^:(?<r39neg>\-)?(?<r39>(?^:[a-zA-Z_]\w*))(?:\.(?<r39part>H0|H1|H0_H0|H1_H1|F32))?(?<reuse3>\.reuse)?);)"#, itype: InstrClass::Shft },
    ]),
        ("VMNMX", vec![
        GrammarEltBase { code: 0x3a44000000000000, rule: r#"(?^:^(?^:\@(?<predNot>\!)?P(?<predNum>[0-6]) )?VMNMX(?^:(?:\.(?<UD>UD))?(?:\.(?<SD>SD))?(?:\.(?<sign1>[SU])(?<size1>8|16|32))?(?:\.(?<sign2>[SU])(?<size2>8|16|32))?)(?^:(?:\.(?<MX>MX))?)(?^:(?<SAT>\.SAT)?)(?^:(?:\.(?<mode>MRG_16[HL]|MRG_8B[0-3]|ACC|MIN|MAX))?) (?^:(?<r0>(?^:[a-zA-Z_]\w*))), (?^:(?<r8neg>\-)?(?<r8abs>\|)?(?<r8>(?^:[a-zA-Z_]\w*))\|?(?:\.(?<r8part>H0|H1|B0|B1|B2|B3|H0_H0|H1_H1|F32))?(?<reuse1>\.reuse)?), (?^:(?<r20neg>\-)?(?<r20abs>\|)?(?<r20>(?^:[a-zA-Z_]\w*))\|?(?:\.(?<r20part>H0|H1|B0|B1|B2|B3|H0_H0|H1_H1))?(?<reuse2>\.reuse)?), (?^:(?<r39neg>\-)?(?<r39>(?^:[a-zA-Z_]\w*))(?:\.(?<r39part>H0|H1|H0_H0|H1_H1|F32))?(?<reuse3>\.reuse)?);)"#, itype: InstrClass::Shft },
    ]),
        ("VOTE", vec![
        GrammarEltBase { code: 0x50d8000000000000, rule: r#"(?^:^(?^:\@(?<predNot>\!)?P(?<predNum>[0-6]) )?VOTE(?^:\.(?<mode>ALL|ANY|EQ)) (?:(?^:(?<r0>(?^:[a-zA-Z_]\w*))), |(?<nor0>))(?^:(?<p45>(?^:P[0-6T]))), (?^:(?<p39not>\!)?(?<p39>(?^:P[0-6T])));)"#, itype: InstrClass::Vote },
    ]),
        ("VSET", vec![
        GrammarEltBase { code: 0x4004000000000000, rule: r#"(?^:^(?^:\@(?<predNot>\!)?P(?<predNum>[0-6]) )?VSET(?^:\.(?<cmp>LT|EQ|LE|GT|NE|GE))(?^:(?:\.(?<UD>UD))?(?:\.(?<SD>SD))?(?:\.(?<sign1>[SU])(?<size1>8|16|32))?(?:\.(?<sign2>[SU])(?<size2>8|16|32))?)(?^:(?:\.(?<mode>MRG_16[HL]|MRG_8B[0-3]|ACC|MIN|MAX))?) (?^:(?<r0>(?^:[a-zA-Z_]\w*))), (?^:(?<r8neg>\-)?(?<r8abs>\|)?(?<r8>(?^:[a-zA-Z_]\w*))\|?(?:\.(?<r8part>H0|H1|B0|B1|B2|B3|H0_H0|H1_H1|F32))?(?<reuse1>\.reuse)?), (?^:(?<r20neg>\-)?(?<r20abs>\|)?(?<r20>(?^:[a-zA-Z_]\w*))\|?(?:\.(?<r20part>H0|H1|B0|B1|B2|B3|H0_H0|H1_H1))?(?<reuse2>\.reuse)?), (?^:(?<r39neg>\-)?(?<r39>(?^:[a-zA-Z_]\w*))(?:\.(?<r39part>H0|H1|H0_H0|H1_H1|F32))?(?<reuse3>\.reuse)?);)"#, itype: InstrClass::Shft },
    ]),
        ("XMAD", vec![
        GrammarEltBase { code: 0x5b00000000000000, rule: r#"(?^:^(?^:\@(?<predNot>\!)?P(?<predNum>[0-6]) )?XMAD(?^:(?:\.(?<type1>U16|S16))?(?:\.(?<type2>U16|S16))?(?:\.(?<mode>MRG|PSL\.CLO|PSL|CHI|CLO|CSFU))?(?<CBCC>\.CBCC)?) (?^:(?<r0>(?^:[a-zA-Z_]\w*))(?<CC>\.CC)?), (?^:(?<r8neg>\-)?(?<r8abs>\|)?(?<r8>(?^:[a-zA-Z_]\w*))\|?(?:\.(?<r8part>H0|H1|B0|B1|B2|B3|H0_H0|H1_H1|F32))?(?<reuse1>\.reuse)?), (?^:(?^:(?<i20>(?<neg>\-)?(?^:(?^:0[xX][0-9a-fA-F]+)|(?^:\d+[xX]<[^>]+>)|\d+))(?<r20neg>\.NEG)?)|(?^:(?<r20neg>\-)?(?<r20abs>\|)?(?<r20>(?^:[a-zA-Z_]\w*))\|?(?:\.(?<r20part>H0|H1|B0|B1|B2|B3|H0_H0|H1_H1))?(?<reuse2>\.reuse)?)), (?^:(?<r39neg>\-)?(?<r39>(?^:[a-zA-Z_]\w*))(?:\.(?<r39part>H0|H1|H0_H0|H1_H1|F32))?(?<reuse3>\.reuse)?);)"#, itype: InstrClass::X32 },
        GrammarEltBase { code: 0x5900000000000000, rule: r#"(?^:^(?^:\@(?<predNot>\!)?P(?<predNum>[0-6]) )?XMAD(?^:(?:\.(?<type1>U16|S16))?(?:\.(?<type2>U16|S16))?(?:\.(?<mode>MRG|PSL\.CLO|PSL|CHI|CLO|CSFU))?(?<CBCC>\.CBCC)?) (?^:(?<r0>(?^:[a-zA-Z_]\w*))(?<CC>\.CC)?), (?^:(?<r8neg>\-)?(?<r8abs>\|)?(?<r8>(?^:[a-zA-Z_]\w*))\|?(?:\.(?<r8part>H0|H1|B0|B1|B2|B3|H0_H0|H1_H1|F32))?(?<reuse1>\.reuse)?), (?^:(?<r20neg>\-)?(?<r20abs>\|)?(?<r39s20>(?<r20>(?^:[a-zA-Z_]\w*)))\|?(?:\.(?<r39part>H0|H1))?(?<reuse2>\.reuse)?), (?^:(?<r39neg>\-)?c\[(?<c34>(?^:0[xX][0-9a-fA-F]+))\]\s*\[(?<c39>(?^:0[xX][0-9a-fA-F]+))\]);)"#, itype: InstrClass::X32 },
        GrammarEltBase { code: 0x5e00000000000000, rule: r#"(?^:^(?^:\@(?<predNot>\!)?P(?<predNum>[0-6]) )?XMAD(?^:(?:\.(?<type1>U16|S16))?(?:\.(?<type2>U16|S16))?(?:\.(?<modec>MRG|PSL\.CLO|PSL|CHI|CLO|CSFU))?(?<CBCC>\.CBCC)?) (?^:(?<r0>(?^:[a-zA-Z_]\w*))(?<CC>\.CC)?), (?^:(?<r8neg>\-)?(?<r8abs>\|)?(?<r8>(?^:[a-zA-Z_]\w*))\|?(?:\.(?<r8part>H0|H1|B0|B1|B2|B3|H0_H0|H1_H1|F32))?(?<reuse1>\.reuse)?), (?^:(?<r20neg>\-)?(?<r20abs>\|)?c\[(?<c34>(?^:0[xX][0-9a-fA-F]+))\]\s*\[(?<c20>(?^:0[xX][0-9a-fA-F]+))\]\|?(?:\.(?<r20partx>H0|H1|B0|B1|B2|B3))?), (?^:(?<r39neg>\-)?(?<r39>(?^:[a-zA-Z_]\w*))(?:\.(?<r39part>H0|H1|H0_H0|H1_H1|F32))?(?<reuse3>\.reuse)?);)"#, itype: InstrClass::X32 },
    ]),
    ];
    assert(r@.map_values(|e: (&'static str, Vec<GrammarEltBase>)| entry_shape(e)) =~~= grammar_shape());
    assert(r@.map_values(|e: (&'static str, Vec<GrammarEltBase>)| entry_rule_texts(e))
        =~~= grammar_rule_texts());
    r
}

} // verus!
