//! Cubin (CUDA ELF) files: headers, sections, symbols and kernels.
use vstd::prelude::*;
use vstd::string::*;

use crate::mut_map::MutStrMap;
use crate::sval::{ElfSymbol, KernelSection, KernelView, SecHdr, SecView, SymBind, binding, spec_binding};
use crate::text::{
    hex_chars, hex_string, pad_left, push_str, split_bytes, split_on, string_from_chars,
    string_from_utf8, utf8_decode,
};

verus! {

/// A value of a kernel's parameter section.
pub enum ParamVal {
    /// Words.
    Data(Vec<u32>),
    /// Words as text.
    Hex(Vec<String>),
    /// A size.
    Size(u32),
    /// A flag.
    Flag(bool),
}

/// What a `ParamVal` holds.
pub enum ParamSpec {
    Data(Seq<u32>),
    Hex(Seq<Seq<char>>),
    Size(u32),
    Flag(bool),
}

impl View for ParamVal {
    type V = ParamSpec;

    open spec fn view(&self) -> ParamSpec {
        match self {
            ParamVal::Data(d) => ParamSpec::Data(d@),
            ParamVal::Hex(h) => ParamSpec::Hex(h.deep_view()),
            ParamVal::Size(s) => ParamSpec::Size(*s),
            ParamVal::Flag(f) => ParamSpec::Flag(*f),
        }
    }
}

/// The word that opens the parameter list.
pub const PARAM_DELIM: u32 = 0x00080a04;

/// The word that opens a parameter entry.
pub const PARAM_ENTRY: u32 = 0x000c1704;

/// `v` as `0x` and eight lowercase hex digits.
pub open spec fn hex32_text(v: u32) -> Seq<char> {
    seq!['0', 'x'] + pad_left(hex_string(v as nat), 8, '0')
}

/// The index of the first parameter-list delimiter at or after `i` (the
/// length if there is none).
pub open spec fn find_delim(data: Seq<u32>, i: int) -> int
    decreases data.len() - i,
{
    if i >= data.len() || data[i] == PARAM_DELIM {
        i
    } else {
        find_delim(data, i + 1)
    }
}

/// Whether the parameter entry at `idx` can be read: its words are there,
/// its offset does not overflow, and its alignment shift is below 32.
pub open spec fn entry_ok(data: Seq<u32>, first: u32, idx: int) -> bool {
    &&& idx + 3 < data.len()
    &&& first + (data[idx + 2] >> 16u32) <= u32::MAX
    &&& (data[idx + 3] & 0x400u32 == 0x400u32 ==> data[idx + 3] & 0x3ffu32 < 32)
}

/// Where the run of parameter entries starting at `idx` ends; `None` where
/// an entry cannot be read.
pub open spec fn params_end(data: Seq<u32>, first: u32, idx: int) -> Option<int>
    decreases data.len() - idx,
{
    if idx < 0 || idx >= data.len() || data[idx] != PARAM_ENTRY {
        Some(idx)
    } else if !entry_ok(data, first, idx) {
        None
    } else {
        params_end(data, first, idx + 4)
    }
}

/// The attribute stored for attribute `code` with the given words.
pub open spec fn attr_entry(code: u32, size: u32, slice: Seq<u32>) -> Option<(Seq<char>, ParamSpec)> {
    if code == 0x1b03 {
        Some(("MAXREG_COUNT"@, ParamSpec::Size(size)))
    } else if code == 0x1d04 {
        Some(("CTAIDOffsets"@, ParamSpec::Data(slice)))
    } else if code == 0x1c04 {
        Some(("ExitOffsets"@, ParamSpec::Data(slice)))
    } else if code == 0x0401 {
        Some(("CTADIZUsed"@, ParamSpec::Flag(true)))
    } else if code == 0x1004 {
        Some(("REQNTID"@, ParamSpec::Data(slice)))
    } else if code == 0x0504 {
        Some(("MAXNTID"@, ParamSpec::Data(slice)))
    } else if code == 0x1e04 {
        Some(("STACKSIZE"@, ParamSpec::Data(slice)))
    } else {
        None
    }
}

/// The attributes from `idx` on, added to `m`: each is a word holding the
/// code (low half) and byte size (high half) followed by size / 4 words;
/// `None` where an attribute runs past the end.
pub open spec fn attrs_from(data: Seq<u32>, idx: int, m: Map<Seq<char>, ParamSpec>) -> Option<
    Map<Seq<char>, ParamSpec>,
>
    decreases data.len() - idx,
{
    if idx < 0 || idx >= data.len() {
        Some(m)
    } else {
        let code = data[idx] & 0xffffu32;
        let size = data[idx] >> 16u32;
        let step = (size / 4) as int;
        if idx + 1 + step > data.len() {
            None
        } else {
            let m2 = match attr_entry(code, size, data.subrange(idx + 1, idx + 1 + step)) {
                Some((k, v)) => m.insert(k, v),
                None => m,
            };
            attrs_from(data, idx + 1 + step, m2)
        }
    }
}

/// What `extract_param_sec` gives for the words `data`: the words, their
/// hex texts, the words before the parameter entries, and the attributes
/// after them; `None` where the section cannot be read.
pub open spec fn spec_param_sec(data: Seq<u32>) -> Option<Map<Seq<char>, ParamSpec>> {
    let d = find_delim(data, 0);
    if d + 2 >= data.len() {
        None
    } else {
        let first = data[d + 2] & 0xffffu32;
        match params_end(data, first, d + 4) {
            None => None,
            Some(e) => if e - 1 > data.len() {
                None
            } else {
                let base = Map::<Seq<char>, ParamSpec>::empty().insert(
                    "ParamData"@,
                    ParamSpec::Data(data),
                ).insert("ParamHex"@, ParamSpec::Hex(data.map_values(|v: u32| hex32_text(v)))).insert(
                    "StaticParams"@,
                    ParamSpec::Data(data.subrange(0, e - 1)),
                );
                attrs_from(data, e, base)
            },
        }
    }
}

/// `v` as `0x` and eight lowercase hex digits.
pub fn hex32(v: u32) -> (s: String)
    ensures
        s@ == hex32_text(v),
{
    let mut c: Vec<char> = Vec::new();
    c.push('0');
    c.push('x');
    let h = hex_chars(v as u64, 8, '0');
    let ghost before = c@;
    let mut i: usize = 0;
    while i < h.len()
        invariant
            i <= h@.len(),
            c@ == before + h@.take(i as int),
        decreases h@.len() - i,
    {
        c.push(h[i]);
        i = i + 1;
        assert(c@ =~= before + h@.take(i as int));
    }
    assert(h@.take(h@.len() as int) =~= h@);
    assert(c@ =~= hex32_text(v));
    string_from_chars(&c)
}

fn copy_words(data: &Vec<u32>, from: usize, to: usize) -> (r: Vec<u32>)
    requires
        from <= to <= data@.len(),
    ensures
        r@ == data@.subrange(from as int, to as int),
{
    let mut r: Vec<u32> = Vec::new();
    let mut i = from;
    while i < to
        invariant
            from <= i <= to <= data@.len(),
            r@ == data@.subrange(from as int, i as int),
        decreases to - i,
    {
        r.push(data[i]);
        i = i + 1;
        assert(r@ =~= data@.subrange(from as int, i as int));
    }
    r
}

/// The parameter section of a kernel from its `.nv.info` words (see
/// `spec_param_sec`).
pub fn extract_param_sec(data: &Vec<u32>) -> (r: Option<MutStrMap<ParamVal>>)
    ensures
        match r {
            Some(m) => spec_param_sec(data@) == Some(m@.map_values(|v: ParamVal| v@)),
            None => spec_param_sec(data@) is None,
        },
{
    let n = data.len();
    let mut hexes: Vec<String> = Vec::new();
    let mut i: usize = 0;
    while i < n
        invariant
            n == data@.len(),
            i <= n,
            hexes.deep_view() == data@.take(i as int).map_values(|v: u32| hex32_text(v)),
        decreases n - i,
    {
        let h = hex32(data[i]);
        let ghost before = hexes.deep_view();
        hexes.push(h);
        proof {
            assert(hexes.deep_view() =~= before.push(hex32_text(data@[i as int])));
            assert(data@.take(i + 1).map_values(|v: u32| hex32_text(v)) =~= data@.take(
                i as int,
            ).map_values(|v: u32| hex32_text(v)).push(hex32_text(data@[i as int])));
        }
        i = i + 1;
    }
    assert(data@.take(n as int) =~= data@);
    let mut idx: usize = 0;
    while idx < n && data[idx] != PARAM_DELIM
        invariant
            n == data@.len(),
            idx <= n,
            find_delim(data@, idx as int) == find_delim(data@, 0),
        decreases n - idx,
    {
        idx = idx + 1;
    }
    if idx >= n || n - idx < 3 {
        return None;
    }
    let ghost d = idx as int;
    let first = data[idx + 2] & 0xffffu32;
    if n - idx == 3 {
        let mut param_sec: MutStrMap<ParamVal> = MutStrMap::new();
        param_sec.insert("ParamData", ParamVal::Data(data.clone()));
        param_sec.insert("ParamHex", ParamVal::Hex(hexes));
        param_sec.insert("StaticParams", ParamVal::Data(copy_words(data, 0, n)));
        proof {
            assert(params_end(data@, first, d + 4) == Some(d + 4));
            assert(param_sec@.map_values(|v: ParamVal| v@) =~= Map::<Seq<char>, ParamSpec>::empty().insert(
                "ParamData"@,
                ParamSpec::Data(data@),
            ).insert("ParamHex"@, ParamSpec::Hex(data@.map_values(|v: u32| hex32_text(v)))).insert(
                "StaticParams"@,
                ParamSpec::Data(data@.subrange(0, d + 3)),
            ));
        }
        return Some(param_sec);
    }
    idx = idx + 4;
    let ghost d4 = idx as int;
    while idx < n && data[idx] == PARAM_ENTRY
        invariant
            n == data@.len(),
            4 <= idx <= n,
            d4 == d + 4,
            d == find_delim(data@, 0),
            d + 3 < n,
            first == data@[d + 2] & 0xffffu32,
            params_end(data@, first, idx as int) == params_end(data@, first, d4),
        decreases n - idx,
    {
        if n - idx <= 3 {
            return None;
        }
        let off = data[idx + 2] >> 16u32;
        if off > u32::MAX - first {
            return None;
        }
        let a = data[idx + 3];
        if a & 0x400u32 == 0x400u32 && a & 0x3ffu32 >= 32 {
            return None;
        }
        idx = idx + 4;
    }
    let ghost e = idx as int;
    assert(params_end(data@, first, e) == Some(e));
    let mut param_sec: MutStrMap<ParamVal> = MutStrMap::new();
    param_sec.insert("ParamData", ParamVal::Data(data.clone()));
    param_sec.insert("ParamHex", ParamVal::Hex(hexes));
    param_sec.insert("StaticParams", ParamVal::Data(copy_words(data, 0, idx - 1)));
    proof {
        assert(param_sec@.map_values(|v: ParamVal| v@) =~= Map::<Seq<char>, ParamSpec>::empty().insert(
            "ParamData"@,
            ParamSpec::Data(data@),
        ).insert("ParamHex"@, ParamSpec::Hex(data@.map_values(|v: u32| hex32_text(v)))).insert(
            "StaticParams"@,
            ParamSpec::Data(data@.subrange(0, e - 1)),
        ));
    }
    while idx < n
        invariant
            n == data@.len(),
            e <= idx <= n,
            spec_param_sec(data@) == attrs_from(
                data@,
                idx as int,
                param_sec@.map_values(|v: ParamVal| v@),
            ),
        decreases n - idx,
    {
        let code = data[idx] & 0xffffu32;
        let size = data[idx] >> 16u32;
        let step = (size / 4) as usize;
        idx = idx + 1;
        if step > n - idx {
            return None;
        }
        let ghost before = param_sec@.map_values(|v: ParamVal| v@);
        let ghost sl = data@.subrange(idx as int, idx + step);
        if code == 0x1b03 {
            param_sec.insert("MAXREG_COUNT", ParamVal::Size(size));
        } else if code == 0x1d04 {
            param_sec.insert("CTAIDOffsets", ParamVal::Data(copy_words(data, idx, idx + step)));
        } else if code == 0x1c04 {
            param_sec.insert("ExitOffsets", ParamVal::Data(copy_words(data, idx, idx + step)));
        } else if code == 0x0401 {
            param_sec.insert("CTADIZUsed", ParamVal::Flag(true));
        } else if code == 0x1004 {
            param_sec.insert("REQNTID", ParamVal::Data(copy_words(data, idx, idx + step)));
        } else if code == 0x0504 {
            param_sec.insert("MAXNTID", ParamVal::Data(copy_words(data, idx, idx + step)));
        } else if code == 0x1e04 {
            param_sec.insert("STACKSIZE", ParamVal::Data(copy_words(data, idx, idx + step)));
        }
        proof {
            let m2 = match attr_entry(code, size, sl) {
                Some((k, v)) => before.insert(k, v),
                None => before,
            };
            assert(param_sec@.map_values(|v: ParamVal| v@) =~= m2);
        }
        idx = idx + step;
    }
    Some(param_sec)
}

/// Little-endian reads at byte offset `o`.
pub open spec fn le16(d: Seq<u8>, o: int) -> nat {
    d[o] as nat + 256 * d[o + 1] as nat
}

/// The little-endian 32-bit number at `o`.
pub open spec fn le32(d: Seq<u8>, o: int) -> nat {
    le16(d, o) + 65536 * le16(d, o + 2)
}

/// The little-endian 64-bit number at `o`.
pub open spec fn le64(d: Seq<u8>, o: int) -> nat {
    le32(d, o) + 0x1_0000_0000 * le32(d, o + 4)
}

/// The little-endian `u16` at `off`.
pub fn read_u16(d: &Vec<u8>, off: usize) -> (r: u16)
    requires
        off + 2 <= d.len(),
    ensures
        r == le16(d@, off as int),
{
    let lo: u8 = d[off];
    let hi: u8 = d[off + 1];
    assert(hi as u16 * 256 <= 65280) by (nonlinear_arith)
        requires
            hi <= 255,
    ;
    lo as u16 + (hi as u16) * 256
}

/// The little-endian `u32` at `off`.
pub fn read_u32(d: &Vec<u8>, off: usize) -> (r: u32)
    requires
        off + 4 <= d.len(),
    ensures
        r == le32(d@, off as int),
{
    let lo = read_u16(d, off);
    let hi = read_u16(d, off + 2);
    assert(hi as u32 * 65536 <= 0xffff_0000) by (nonlinear_arith)
        requires
            hi <= 0xffff,
    ;
    lo as u32 + (hi as u32) * 65536
}

/// The little-endian `u64` at `off`.
pub fn read_u64(d: &Vec<u8>, off: usize) -> (r: u64)
    requires
        off + 8 <= d.len(),
    ensures
        r == le64(d@, off as int),
{
    let lo = read_u32(d, off);
    let hi = read_u32(d, off + 4);
    assert(hi as nat * 0x1_0000_0000 <= 0xffff_ffff_0000_0000) by (nonlinear_arith)
        requires
            hi <= 0xffff_ffff,
    ;
    lo as u64 + (hi as u64) * 0x1_0000_0000u64
}

/// The fields of an ELF file header that a cubin is read by.
#[derive(Clone, Copy, PartialEq, Eq, Structural, Debug)]
pub struct ElfHeader {
    pub class32: bool,
    pub e_type: u16,
    pub flags: u32,
    pub phoff: u64,
    pub phentsize: u16,
    pub shoff: u64,
    pub shentsize: u16,
    pub shstrndx: u16,
}

/// The file header: its type field (at 16) decides the layout, 1 being
/// read as the 32-bit header and 2 as the 64-bit one; anything else, or a
/// file too short for the header, gives `None`.
pub open spec fn spec_header(d: Seq<u8>) -> Option<ElfHeader> {
    if d.len() < 52 {
        None
    } else {
        let t = le16(d, 16) as u16;
        if t == 1 {
            Some(
                ElfHeader {
                    class32: true,
                    e_type: t,
                    flags: le32(d, 36) as u32,
                    phoff: le32(d, 28) as u64,
                    phentsize: le16(d, 42) as u16,
                    shoff: le32(d, 32) as u64,
                    shentsize: le16(d, 46) as u16,
                    shstrndx: le16(d, 50) as u16,
                },
            )
        } else if t == 2 && d.len() >= 64 {
            Some(
                ElfHeader {
                    class32: false,
                    e_type: t,
                    flags: le32(d, 48) as u32,
                    phoff: le64(d, 32) as u64,
                    phentsize: le16(d, 54) as u16,
                    shoff: le64(d, 40) as u64,
                    shentsize: le16(d, 58) as u16,
                    shstrndx: le16(d, 62) as u16,
                },
            )
        } else {
            None
        }
    }
}

/// Reads the file header (see `spec_header`).
pub fn read_header(d: &Vec<u8>) -> (r: Option<ElfHeader>)
    ensures
        r == spec_header(d@),
{
    if d.len() < 52 {
        return None;
    }
    let t = read_u16(d, 16);
    if t == 1 {
        Some(
            ElfHeader {
                class32: true,
                e_type: t,
                flags: read_u32(d, 36),
                phoff: read_u32(d, 28) as u64,
                phentsize: read_u16(d, 42),
                shoff: read_u32(d, 32) as u64,
                shentsize: read_u16(d, 46),
                shstrndx: read_u16(d, 50),
            },
        )
    } else if t == 2 && d.len() >= 64 {
        Some(
            ElfHeader {
                class32: false,
                e_type: t,
                flags: read_u32(d, 48),
                phoff: read_u64(d, 32),
                phentsize: read_u16(d, 54),
                shoff: read_u64(d, 40),
                shentsize: read_u16(d, 58),
                shstrndx: read_u16(d, 62),
            },
        )
    } else {
        None
    }
}

/// A program header, of either class.
#[derive(Clone, Copy, PartialEq, Eq, Structural, Debug)]
pub struct PrgHeader {
    pub p_type: u32,
    pub p_flags: u32,
    pub p_offset: u64,
    pub p_vaddr: u64,
    pub p_paddr: u64,
    pub p_filesz: u64,
    pub p_memsz: u64,
    pub p_align: u64,
}

/// A section header, of either class.
#[derive(Clone, Copy, PartialEq, Eq, Structural, Debug)]
pub struct SecHeader {
    pub sh_name: u32,
    pub sh_type: u32,
    pub sh_flags: u64,
    pub sh_addr: u64,
    pub sh_offset: u64,
    pub sh_size: u64,
    pub sh_link: u32,
    pub sh_info: u32,
    pub sh_addralign: u64,
    pub sh_entsize: u64,
}

/// A symbol table entry, of either class.
#[derive(Clone, Copy, PartialEq, Eq, Structural, Debug)]
pub struct Sym {
    pub st_name: u32,
    pub st_value: u64,
    pub st_size: u64,
    pub st_info: u8,
    pub st_other: u8,
    pub st_shndx: u16,
}

/// The size of a program header, a section header and a symbol in a file of
/// either class.
pub open spec fn prg_header_size(class32: bool) -> nat {
    if class32 {
        32
    } else {
        56
    }
}

pub open spec fn sec_header_size(class32: bool) -> nat {
    if class32 {
        40
    } else {
        64
    }
}

pub open spec fn sym_size(class32: bool) -> nat {
    if class32 {
        16
    } else {
        24
    }
}

/// The program header at byte `o`.
pub open spec fn spec_prg_header(d: Seq<u8>, o: int, class32: bool) -> PrgHeader {
    if class32 {
        PrgHeader {
            p_type: le32(d, o) as u32,
            p_offset: le32(d, o + 4) as u64,
            p_vaddr: le32(d, o + 8) as u64,
            p_paddr: le32(d, o + 12) as u64,
            p_filesz: le32(d, o + 16) as u64,
            p_memsz: le32(d, o + 20) as u64,
            p_flags: le32(d, o + 24) as u32,
            p_align: le32(d, o + 28) as u64,
        }
    } else {
        PrgHeader {
            p_type: le32(d, o) as u32,
            p_flags: le32(d, o + 4) as u32,
            p_offset: le64(d, o + 8) as u64,
            p_vaddr: le64(d, o + 16) as u64,
            p_paddr: le64(d, o + 24) as u64,
            p_filesz: le64(d, o + 32) as u64,
            p_memsz: le64(d, o + 40) as u64,
            p_align: le64(d, o + 48) as u64,
        }
    }
}

/// The section header at byte `o`.
pub open spec fn spec_sec_header(d: Seq<u8>, o: int, class32: bool) -> SecHeader {
    if class32 {
        SecHeader {
            sh_name: le32(d, o) as u32,
            sh_type: le32(d, o + 4) as u32,
            sh_flags: le32(d, o + 8) as u64,
            sh_addr: le32(d, o + 12) as u64,
            sh_offset: le32(d, o + 16) as u64,
            sh_size: le32(d, o + 20) as u64,
            sh_link: le32(d, o + 24) as u32,
            sh_info: le32(d, o + 28) as u32,
            sh_addralign: le32(d, o + 32) as u64,
            sh_entsize: le32(d, o + 36) as u64,
        }
    } else {
        SecHeader {
            sh_name: le32(d, o) as u32,
            sh_type: le32(d, o + 4) as u32,
            sh_flags: le64(d, o + 8) as u64,
            sh_addr: le64(d, o + 16) as u64,
            sh_offset: le64(d, o + 24) as u64,
            sh_size: le64(d, o + 32) as u64,
            sh_link: le32(d, o + 40) as u32,
            sh_info: le32(d, o + 44) as u32,
            sh_addralign: le64(d, o + 48) as u64,
            sh_entsize: le64(d, o + 56) as u64,
        }
    }
}

/// The symbol at byte `o`.
pub open spec fn spec_sym(d: Seq<u8>, o: int, class32: bool) -> Sym {
    if class32 {
        Sym {
            st_name: le32(d, o) as u32,
            st_value: le32(d, o + 4) as u64,
            st_size: le32(d, o + 8) as u64,
            st_info: d[o + 12],
            st_other: d[o + 13],
            st_shndx: le16(d, o + 14) as u16,
        }
    } else {
        Sym {
            st_name: le32(d, o) as u32,
            st_info: d[o + 4],
            st_other: d[o + 5],
            st_shndx: le16(d, o + 6) as u16,
            st_value: le64(d, o + 8) as u64,
            st_size: le64(d, o + 16) as u64,
        }
    }
}

/// Reads the program header at `o`.
pub fn read_prg_header(d: &Vec<u8>, o: usize, class32: bool) -> (r: PrgHeader)
    requires
        o + prg_header_size(class32) <= d.len(),
    ensures
        r == spec_prg_header(d@, o as int, class32),
{
    if class32 {
        PrgHeader {
            p_type: read_u32(d, o),
            p_offset: read_u32(d, o + 4) as u64,
            p_vaddr: read_u32(d, o + 8) as u64,
            p_paddr: read_u32(d, o + 12) as u64,
            p_filesz: read_u32(d, o + 16) as u64,
            p_memsz: read_u32(d, o + 20) as u64,
            p_flags: read_u32(d, o + 24),
            p_align: read_u32(d, o + 28) as u64,
        }
    } else {
        PrgHeader {
            p_type: read_u32(d, o),
            p_flags: read_u32(d, o + 4),
            p_offset: read_u64(d, o + 8),
            p_vaddr: read_u64(d, o + 16),
            p_paddr: read_u64(d, o + 24),
            p_filesz: read_u64(d, o + 32),
            p_memsz: read_u64(d, o + 40),
            p_align: read_u64(d, o + 48),
        }
    }
}

/// Reads the section header at `o`.
pub fn read_sec_header(d: &Vec<u8>, o: usize, class32: bool) -> (r: SecHeader)
    requires
        o + sec_header_size(class32) <= d.len(),
    ensures
        r == spec_sec_header(d@, o as int, class32),
{
    if class32 {
        SecHeader {
            sh_name: read_u32(d, o),
            sh_type: read_u32(d, o + 4),
            sh_flags: read_u32(d, o + 8) as u64,
            sh_addr: read_u32(d, o + 12) as u64,
            sh_offset: read_u32(d, o + 16) as u64,
            sh_size: read_u32(d, o + 20) as u64,
            sh_link: read_u32(d, o + 24),
            sh_info: read_u32(d, o + 28),
            sh_addralign: read_u32(d, o + 32) as u64,
            sh_entsize: read_u32(d, o + 36) as u64,
        }
    } else {
        SecHeader {
            sh_name: read_u32(d, o),
            sh_type: read_u32(d, o + 4),
            sh_flags: read_u64(d, o + 8),
            sh_addr: read_u64(d, o + 16),
            sh_offset: read_u64(d, o + 24),
            sh_size: read_u64(d, o + 32),
            sh_link: read_u32(d, o + 40),
            sh_info: read_u32(d, o + 44),
            sh_addralign: read_u64(d, o + 48),
            sh_entsize: read_u64(d, o + 56),
        }
    }
}

/// Reads the symbol at `o`.
pub fn read_sym(d: &Vec<u8>, o: usize, class32: bool) -> (r: Sym)
    requires
        o + sym_size(class32) <= d.len(),
    ensures
        r == spec_sym(d@, o as int, class32),
{
    if class32 {
        Sym {
            st_name: read_u32(d, o),
            st_value: read_u32(d, o + 4) as u64,
            st_size: read_u32(d, o + 8) as u64,
            st_info: d[o + 12],
            st_other: d[o + 13],
            st_shndx: read_u16(d, o + 14),
        }
    } else {
        Sym {
            st_name: read_u32(d, o),
            st_info: d[o + 4],
            st_other: d[o + 5],
            st_shndx: read_u16(d, o + 6),
            st_value: read_u64(d, o + 8),
            st_size: read_u64(d, o + 16),
        }
    }
}

/// `n` records of `size` bytes from byte `off` on, each read by `f`; `None`
/// if they run past the end of the file.
pub open spec fn records_fit(len: nat, off: nat, n: nat, size: nat) -> bool {
    off + n * size <= len
}

/// The program headers: as many as the header's program-header entry size
/// says (the table is read with that count).
pub open spec fn spec_prg_headers(d: Seq<u8>, h: ElfHeader) -> Option<Seq<PrgHeader>> {
    let size = prg_header_size(h.class32);
    if records_fit(d.len(), h.phoff as nat, h.phentsize as nat, size) {
        Some(
            Seq::new(
                h.phentsize as nat,
                |i: int| spec_prg_header(d, h.phoff + i * size, h.class32),
            ),
        )
    } else {
        None
    }
}

/// The section headers: as many as the header's section-header entry size
/// says (the table is read with that count).
pub open spec fn spec_sec_headers(d: Seq<u8>, h: ElfHeader) -> Option<Seq<SecHeader>> {
    let size = sec_header_size(h.class32);
    if records_fit(d.len(), h.shoff as nat, h.shentsize as nat, size) {
        Some(
            Seq::new(
                h.shentsize as nat,
                |i: int| spec_sec_header(d, h.shoff + i * size, h.class32),
            ),
        )
    } else {
        None
    }
}

/// Reads the program headers (see `spec_prg_headers`).
pub fn read_prg_headers(d: &Vec<u8>, h: &ElfHeader) -> (r: Option<Vec<PrgHeader>>)
    ensures
        match r {
            Some(v) => spec_prg_headers(d@, *h) == Some(v@),
            None => spec_prg_headers(d@, *h) is None,
        },
{
    let size: usize = if h.class32 {
        32
    } else {
        56
    };
    let n = h.phentsize as usize;
    if h.phoff > d.len() as u64 {
        return None;
    }
    let off = h.phoff as usize;
    if (d.len() - off) / size < n {
        proof {
            lemma_fit_div(d@.len() as nat, off as nat, n as nat, size as nat);
        }
        return None;
    }
    proof {
        lemma_fit_div(d@.len() as nat, off as nat, n as nat, size as nat);
    }
    let mut v: Vec<PrgHeader> = Vec::new();
    let mut i: usize = 0;
    while i < n
        invariant
            i <= n,
            n == h.phentsize,
            off == h.phoff,
            size == prg_header_size(h.class32),
            off + n * size <= d.len(),
            v@ == Seq::new(i as nat, |j: int| spec_prg_header(d@, off + j * size, h.class32)),
        decreases n - i,
    {
        assert(off + i * size + size <= d@.len()) by (nonlinear_arith)
            requires
                i < n,
                off + n * size <= d.len(),
        ;
        let p = read_prg_header(d, off + i * size, h.class32);
        v.push(p);
        i = i + 1;
        assert(v@ =~= Seq::new(i as nat, |j: int| spec_prg_header(d@, off + j * size, h.class32)));
    }
    Some(v)
}

/// Reads the section headers (see `spec_sec_headers`).
pub fn read_sec_headers(d: &Vec<u8>, h: &ElfHeader) -> (r: Option<Vec<SecHeader>>)
    ensures
        match r {
            Some(v) => spec_sec_headers(d@, *h) == Some(v@),
            None => spec_sec_headers(d@, *h) is None,
        },
{
    let size: usize = if h.class32 {
        40
    } else {
        64
    };
    let n = h.shentsize as usize;
    if h.shoff > d.len() as u64 {
        return None;
    }
    let off = h.shoff as usize;
    if (d.len() - off) / size < n {
        proof {
            lemma_fit_div(d@.len() as nat, off as nat, n as nat, size as nat);
        }
        return None;
    }
    proof {
        lemma_fit_div(d@.len() as nat, off as nat, n as nat, size as nat);
    }
    let mut v: Vec<SecHeader> = Vec::new();
    let mut i: usize = 0;
    while i < n
        invariant
            i <= n,
            n == h.shentsize,
            off == h.shoff,
            size == sec_header_size(h.class32),
            off + n * size <= d.len(),
            v@ == Seq::new(i as nat, |j: int| spec_sec_header(d@, off + j * size, h.class32)),
        decreases n - i,
    {
        assert(off + i * size + size <= d@.len()) by (nonlinear_arith)
            requires
                i < n,
                off + n * size <= d.len(),
        ;
        let s = read_sec_header(d, off + i * size, h.class32);
        v.push(s);
        i = i + 1;
        assert(v@ =~= Seq::new(i as nat, |j: int| spec_sec_header(d@, off + j * size, h.class32)));
    }
    Some(v)
}

proof fn lemma_fit_div(len: nat, off: nat, n: nat, size: nat)
    requires
        off <= len,
        size > 0,
    ensures
        records_fit(len, off, n, size) <==> (len - off) as nat / size >= n,
{
    let x: int = len - off;
    let q: int = x / (size as int);
    vstd::arithmetic::div_mod::lemma_fundamental_div_mod(x, size as int);
    vstd::arithmetic::div_mod::lemma_mod_bound(x, size as int);
    if n <= q {
        vstd::arithmetic::mul::lemma_mul_inequality(n as int, q, size as int);
        assert(n * size == size * n);
        assert(q * size == size * q) by (nonlinear_arith);
    } else {
        vstd::arithmetic::mul::lemma_mul_inequality(q + 1, n as int, size as int);
        assert((q + 1) * size == size * q + size) by (nonlinear_arith);
    }
}


/// Section types that a cubin is read by.
pub const SHT_SYMTAB: u32 = 2;

pub const SHT_STRTAB: u32 = 3;

pub const SHT_NOBITS: u32 = 8;

/// Why a cubin cannot be read.
#[derive(Clone, Copy, PartialEq, Eq, Structural, Debug)]
pub enum CubinError {
    /// The header's type field is neither 1 (32-bit) nor 2 (64-bit), or the
    /// file is too short for the header.
    BadClass,
    /// A header table, a section or a symbol runs past the end of the file.
    Truncated,
    /// A string of a string table is not UTF-8.
    BadText,
    /// A symbol table with entry size 0.
    ZeroEntrySize,
    /// The section that the header names as its string table is not one.
    NoStrTab,
    /// A name offset past the end of the string table.
    BadName,
    /// No section `.symtab`, or not a symbol table.
    NoSymTab,
    /// A symbol whose section index is past the section headers.
    BadSymbol,
    /// A function symbol whose binding is neither local, global nor weak.
    BadBinding,
    /// A kernel's code section, or its `.nv.info` section, holds no bytes.
    BadKernelSection,
    /// A kernel without a `.nv.constant0` section.
    NoConstantSection,
    /// A kernel's `.nv.info` section cannot be read (see `spec_param_sec`).
    BadParamSection,
}

/// The texts of `pieces`, each decoded as UTF-8; `None` if one is not.
pub open spec fn spec_texts(pieces: Seq<Seq<u8>>) -> Option<Seq<Seq<char>>>
    decreases pieces.len(),
{
    if pieces.len() == 0 {
        Some(Seq::empty())
    } else {
        match (spec_texts(pieces.drop_last()), utf8_decode(pieces.last())) {
            (Some(a), Some(t)) => Some(a.push(t)),
            _ => None,
        }
    }
}

/// How many entries of `ent` bytes start before `size`.
pub open spec fn entry_count(size: nat, ent: nat) -> nat {
    if ent == 0 {
        0
    } else {
        ((size + ent - 1) as nat / ent) as nat
    }
}

/// The symbol of a symbol table at byte `o`, tagged with the class.
pub open spec fn spec_elf_symbol(d: Seq<u8>, o: int, class32: bool) -> ElfSymbol {
    if class32 {
        ElfSymbol::Sym32(spec_sym(d, o, class32))
    } else {
        ElfSymbol::Sym64(spec_sym(d, o, class32))
    }
}

/// The contents of the section `sh`: nothing for a section without bytes
/// (type NOBITS or size 0); for a string table its pieces between zero
/// bytes, as text; for a symbol table an entry every `sh_entsize` bytes
/// from its start while the offset is below its size; else its bytes.
pub open spec fn spec_section(d: Seq<u8>, sh: SecHeader, class32: bool) -> Result<SecView, CubinError> {
    let off = sh.sh_offset as int;
    let size = sh.sh_size as int;
    if sh.sh_type == SHT_NOBITS || sh.sh_size == 0 {
        Ok(SecView::Empty)
    } else if off + size > d.len() {
        Err(CubinError::Truncated)
    } else {
        let data = d.subrange(off, off + size);
        if sh.sh_type == SHT_STRTAB {
            match spec_texts(split_on(data, 0u8)) {
                Some(t) => Ok(SecView::StrTab(t, data)),
                None => Err(CubinError::BadText),
            }
        } else if sh.sh_type == SHT_SYMTAB {
            let ent = sh.sh_entsize as int;
            let n = entry_count(size as nat, ent as nat);
            if ent == 0 {
                Err(CubinError::ZeroEntrySize)
            } else if off + (n - 1) * ent + sym_size(class32) > d.len() {
                Err(CubinError::Truncated)
            } else {
                Ok(
                    SecView::SymTab(
                        Seq::new(n, |k: int| spec_elf_symbol(d, off + k * ent, class32)),
                        data,
                    ),
                )
            }
        } else {
            Ok(SecView::Other(sh.sh_type, data))
        }
    }
}

fn copy_bytes(d: &Vec<u8>, from: usize, to: usize) -> (r: Vec<u8>)
    requires
        from <= to <= d@.len(),
    ensures
        r@ == d@.subrange(from as int, to as int),
{
    let mut r: Vec<u8> = Vec::new();
    let mut i = from;
    while i < to
        invariant
            from <= i <= to <= d@.len(),
            r@ == d@.subrange(from as int, i as int),
        decreases to - i,
    {
        r.push(d[i]);
        i = i + 1;
        assert(r@ =~= d@.subrange(from as int, i as int));
    }
    r
}

proof fn lemma_texts_none_extends(all: Seq<Seq<u8>>, k: nat)
    requires
        k <= all.len(),
        spec_texts(all.take(k as int)) is None,
    ensures
        spec_texts(all) is None,
    decreases all.len() - k,
{
    if k < all.len() {
        assert(all.take(k + 1int).drop_last() =~= all.take(k as int));
        lemma_texts_none_extends(all, (k + 1) as nat);
    } else {
        assert(all.take(k as int) =~= all);
    }
}

/// The texts of `pieces` (see `spec_texts`).
fn texts_of(pieces: &Vec<Vec<u8>>) -> (r: Option<Vec<String>>)
    ensures
        match r {
            Some(v) => spec_texts(pieces.deep_view()) == Some(v.deep_view()),
            None => spec_texts(pieces.deep_view()) is None,
        },
{
    let ghost all = pieces.deep_view();
    let mut out: Vec<String> = Vec::new();
    let mut i: usize = 0;
    let n = pieces.len();
    assert(all.take(0) =~= Seq::<Seq<u8>>::empty());
    while i < n
        invariant
            n == all.len(),
            all == pieces.deep_view(),
            i <= n,
            spec_texts(all.take(i as int)) == Some(out.deep_view()),
        decreases n - i,
    {
        let piece = copy_bytes(&pieces[i], 0, pieces[i].len());
        assert(piece@ =~= all[i as int]);
        assert(all.take(i + 1).drop_last() =~= all.take(i as int));
        assert(all.take(i + 1).last() == all[i as int]);
        match string_from_utf8(piece) {
            Some(t) => {
                let ghost before = out.deep_view();
                out.push(t);
                assert(out.deep_view() =~= before.push(t@));
            },
            None => {
                proof {
                    lemma_texts_none_extends(all, (i + 1) as nat);
                }
                return None;
            },
        }
        i = i + 1;
    }
    assert(all.take(n as int) =~= all);
    Some(out)
}

/// `k` entries of `ent` bytes start below `size` exactly when `k` is below
/// their count.
proof fn lemma_entry_count(size: nat, ent: nat, k: nat)
    requires
        ent > 0,
    ensures
        k * ent < size <==> k < entry_count(size, ent),
{
    lemma_fit_div((size + ent - 1) as nat, 0, k + 1, ent);
    assert((k + 1) * ent == k * ent + ent) by (nonlinear_arith);
}

/// The symbols of the symbol table at `off`, `size` bytes long, with an entry
/// every `ent` bytes (see `spec_section`).
fn read_symbols(d: &Vec<u8>, off: u64, size: u64, ent: u64, class32: bool) -> (r: Option<Vec<ElfSymbol>>)
    requires
        ent > 0,
        size > 0,
        off + size <= d@.len(),
    ensures
        match r {
            Some(v) => off + (entry_count(size as nat, ent as nat) - 1) * ent + sym_size(class32)
                <= d@.len() && v@ == Seq::new(
                entry_count(size as nat, ent as nat),
                |k: int| spec_elf_symbol(d@, off + k * ent, class32),
            ),
            None => off + (entry_count(size as nat, ent as nat) - 1) * ent + sym_size(class32)
                > d@.len(),
        },
{
    let ghost n = entry_count(size as nat, ent as nat);
    let symsize: u64 = if class32 {
        16
    } else {
        24
    };
    let mut v: Vec<ElfSymbol> = Vec::new();
    let mut offset: u128 = 0;
    let ghost mut k: nat = 0;
    proof {
        lemma_entry_count(size as nat, ent as nat, 0);
    }
    while offset < size as u128
        invariant
            ent > 0,
            off + size <= d@.len(),
            symsize == sym_size(class32),
            n == entry_count(size as nat, ent as nat),
            offset == k * ent,
            k <= n,
            k < n <==> offset < size,
            k > 0 ==> off + (k - 1) * ent + symsize <= d@.len(),
            v@ == Seq::new(k, |j: int| spec_elf_symbol(d@, off + j * ent, class32)),
        decreases n - k,
    {
        let at = off as u128 + offset;
        if at + symsize as u128 > d.len() as u128 {
            proof {
                assert(k <= n - 1);
                assert(k * ent <= (n - 1) * ent) by (nonlinear_arith)
                    requires
                        k <= n - 1,
                ;
            }
            return None;
        }
        let o = at as usize;
        let e = read_sym(d, o, class32);
        let sym = if class32 {
            ElfSymbol::Sym32(e)
        } else {
            ElfSymbol::Sym64(e)
        };
        v.push(sym);
        proof {
            k = k + 1;
            lemma_entry_count(size as nat, ent as nat, k);
            assert(k * ent == (k - 1) * ent + ent) by (nonlinear_arith);
        }
        offset = offset + ent as u128;
        assert(v@ =~= Seq::new(k, |j: int| spec_elf_symbol(d@, off + j * ent, class32)));
    }
    Some(v)
}

/// Reads the contents of the section `sh` (see `spec_section`).
pub fn read_section(d: &Vec<u8>, sh: &SecHeader, class32: bool) -> (r: Result<SecHdr, CubinError>)
    ensures
        match r {
            Ok(s) => spec_section(d@, *sh, class32) == Ok::<SecView, CubinError>(s@),
            Err(e) => spec_section(d@, *sh, class32) == Err::<SecView, CubinError>(e),
        },
{
    if sh.sh_type == SHT_NOBITS || sh.sh_size == 0 {
        return Ok(SecHdr::Empty);
    }
    if sh.sh_offset > d.len() as u64 || sh.sh_size > d.len() as u64 - sh.sh_offset {
        return Err(CubinError::Truncated);
    }
    let from = sh.sh_offset as usize;
    let to = from + sh.sh_size as usize;
    let data = copy_bytes(d, from, to);
    if sh.sh_type == SHT_STRTAB {
        let pieces = split_bytes(&data, 0u8);
        match texts_of(&pieces) {
            Some(t) => Ok(SecHdr::StrTab(t, data)),
            None => Err(CubinError::BadText),
        }
    } else if sh.sh_type == SHT_SYMTAB {
        if sh.sh_entsize == 0 {
            return Err(CubinError::ZeroEntrySize);
        }
        match read_symbols(d, sh.sh_offset, sh.sh_size, sh.sh_entsize, class32) {
            Some(v) => Ok(SecHdr::SymTab(v, data)),
            None => Err(CubinError::Truncated),
        }
    } else {
        Ok(SecHdr::Other(sh.sh_type, data))
    }
}

/// The contents of the sections `shs`, in order; the first section that
/// cannot be read gives the error.
pub open spec fn spec_sections(d: Seq<u8>, shs: Seq<SecHeader>, class32: bool) -> Result<
    Seq<SecView>,
    CubinError,
>
    decreases shs.len(),
{
    if shs.len() == 0 {
        Ok(Seq::empty())
    } else {
        match spec_sections(d, shs.drop_last(), class32) {
            Ok(v) => match spec_section(d, shs.last(), class32) {
                Ok(sec) => Ok(v.push(sec)),
                Err(e) => Err(e),
            },
            Err(e) => Err(e),
        }
    }
}

/// The names of the sections: entry `sh_name` of the string table (taken as
/// an index into its list of strings).
pub open spec fn names_ok(strtab: Seq<Seq<char>>, shs: Seq<SecHeader>) -> bool {
    forall|i: int| 0 <= i < shs.len() ==> #[trigger] shs[i].sh_name < strtab.len()
}

/// The name of each section.
pub open spec fn spec_names(strtab: Seq<Seq<char>>, shs: Seq<SecHeader>) -> Seq<Seq<char>> {
    Seq::new(shs.len(), |i: int| strtab[shs[i].sh_name as int])
}

/// Each name, mapped to the last position it has in `names`.
pub open spec fn name_index(names: Seq<Seq<char>>) -> Map<Seq<char>, int>
    decreases names.len(),
{
    if names.len() == 0 {
        Map::empty()
    } else {
        name_index(names.drop_last()).insert(names.last(), names.len() - 1)
    }
}

/// What the symbol pass reads: the string table, the section headers, their
/// contents, and each section name's position.
pub struct SymCtx {
    pub strtab: Seq<Seq<char>>,
    pub shdrs: Seq<SecHeader>,
    pub secs: Seq<SecView>,
    pub index: Map<Seq<char>, int>,
}

/// What the symbol pass fills: the symbols and the kernels, by name.
pub struct SymTables {
    pub symbols: Map<Seq<char>, ElfSymbol>,
    pub kernels: Map<Seq<char>, KernelView>,
}

/// The little-endian words of `b` (a trailing part word is left out).
pub open spec fn words_le(b: Seq<u8>) -> Seq<u32> {
    Seq::new(b.len() / 4, |i: int| le32(b, 4 * i) as u32)
}

/// The kernel of the function symbol `name` (info byte `info`) whose code
/// section is `sh` with contents `sec`: `None` when there is no
/// `.nv.info.<name>` section.
pub open spec fn spec_kernel(c: SymCtx, name: Seq<char>, info: u8, sh: SecHeader, sec: SecView) -> Result<
    Option<KernelView>,
    CubinError,
> {
    let shared_key = ".nv.shared."@ + name;
    let const_key = ".nv.constant0."@ + name;
    let info_key = ".nv.info."@ + name;
    let has_shared = c.index.contains_key(shared_key);
    match spec_binding(info) {
        None => Err(CubinError::BadBinding),
        Some(linkage) => match sec {
            SecView::Other(_, data) => {
                if !c.index.contains_key(const_key) {
                    Err(CubinError::NoConstantSection)
                } else if !c.index.contains_key(info_key) {
                    Ok(None)
                } else {
                    match c.secs[c.index[info_key]] {
                        SecView::Other(_, pdata) => match spec_param_sec(words_le(pdata)) {
                            None => Err(CubinError::BadParamSection),
                            Some(p) => Ok(
                                Some(
                                    KernelView {
                                        name,
                                        constant_sec: c.secs[c.index[const_key]],
                                        shared_sec: if has_shared {
                                            Some(c.secs[c.index[shared_key]])
                                        } else {
                                            None
                                        },
                                        linkage,
                                        instr_cnt: 0,
                                        bar_cnt: ((sh.sh_flags & 0x01f00000) >> 20u64) as u32,
                                        reg_cnt: (sh.sh_info & 0xff000000) >> 24u32,
                                        shared_size: if has_shared {
                                            c.shdrs[c.index[shared_key]].sh_size as u32
                                        } else {
                                            0
                                        },
                                        param_cnt: 0,
                                        size: 0,
                                        data,
                                        param_sec: Some(p),
                                    },
                                ),
                            ),
                        },
                        _ => Err(CubinError::BadKernelSection),
                    }
                }
            },
            _ => Err(CubinError::BadKernelSection),
        },
    }
}

/// One symbol of the symbol table: a symbol with bit 4 of its info byte set
/// is recorded; else one whose type (low nibble) is not 2 (a function) is
/// passed over; a function is recorded and, with its sections, makes a
/// kernel.
pub open spec fn step_symbol(c: SymCtx, t: SymTables, e: ElfSymbol) -> Result<SymTables, CubinError> {
    let s = e.sym();
    if s.st_name >= c.strtab.len() {
        Err(CubinError::BadName)
    } else if s.st_shndx >= c.shdrs.len() {
        Err(CubinError::BadSymbol)
    } else {
        let name = c.strtab[s.st_name as int];
        if s.st_info & 0x10 == 0x10 {
            Ok(SymTables { symbols: t.symbols.insert(name, e), kernels: t.kernels })
        } else if s.st_info & 0x0f != 2 {
            Ok(t)
        } else {
            let symbols = t.symbols.insert(name, e);
            match spec_kernel(c, name, s.st_info, c.shdrs[s.st_shndx as int], c.secs[s.st_shndx as int]) {
                Err(err) => Err(err),
                Ok(None) => Ok(SymTables { symbols, kernels: t.kernels }),
                Ok(Some(k)) => Ok(SymTables { symbols, kernels: t.kernels.insert(name, k) }),
            }
        }
    }
}

/// The symbol pass over `syms`, in order.
pub open spec fn spec_symbols(c: SymCtx, syms: Seq<ElfSymbol>) -> Result<SymTables, CubinError>
    decreases syms.len(),
{
    if syms.len() == 0 {
        Ok(SymTables { symbols: Map::empty(), kernels: Map::empty() })
    } else {
        match spec_symbols(c, syms.drop_last()) {
            Ok(t) => step_symbol(c, t, syms.last()),
            Err(e) => Err(e),
        }
    }
}

/// What a `Cubin` holds.
pub struct CubinView {
    pub class: u32,
    pub arch: u32,
    pub addr_size: u32,
    pub prg_hdrs: Seq<PrgHeader>,
    pub sec_hdrs: Seq<SecHeader>,
    pub sections: Map<Seq<char>, SecView>,
    pub symbols: Map<Seq<char>, ElfSymbol>,
    pub kernels: Map<Seq<char>, KernelView>,
}

/// The cubin that the bytes `d` hold, given its header `h`: the header
/// tables, each section's contents, named from the string table that the
/// header points to, and the symbols and kernels of `.symtab`.
pub open spec fn spec_build(d: Seq<u8>, h: ElfHeader) -> Result<CubinView, CubinError> {
    match spec_prg_headers(d, h) {
        None => Err(CubinError::Truncated),
        Some(prg) => match spec_sec_headers(d, h) {
            None => Err(CubinError::Truncated),
            Some(shs) => match spec_sections(d, shs, h.class32) {
                Err(e) => Err(e),
                Ok(secs) => if h.shstrndx >= secs.len() || !(secs[h.shstrndx as int] is StrTab) {
                    Err(CubinError::NoStrTab)
                } else {
                    let strtab = secs[h.shstrndx as int]->StrTab_0;
                    if !names_ok(strtab, shs) {
                        Err(CubinError::BadName)
                    } else {
                        let index = name_index(spec_names(strtab, shs));
                        let key = ".symtab"@;
                        if !index.contains_key(key) || !(secs[index[key]] is SymTab) {
                            Err(CubinError::NoSymTab)
                        } else {
                            let c = SymCtx { strtab, shdrs: shs, secs, index };
                            match spec_symbols(c, secs[index[key]]->SymTab_0) {
                                Err(e) => Err(e),
                                Ok(t) => Ok(
                                    CubinView {
                                        class: if h.class32 {
                                            32
                                        } else {
                                            64
                                        },
                                        arch: h.flags & 0xff,
                                        addr_size: if h.flags & 0x400 == 0x400 {
                                            64
                                        } else {
                                            32
                                        },
                                        prg_hdrs: prg,
                                        sec_hdrs: shs,
                                        sections: index.map_values(|i: int| secs[i]),
                                        symbols: t.symbols,
                                        kernels: t.kernels,
                                    },
                                ),
                            }
                        }
                    }
                },
            },
        },
    }
}

/// The cubin that the bytes `d` hold: its header decides the class (see
/// `spec_header`), the rest is `spec_build`.
pub open spec fn spec_cubin(d: Seq<u8>) -> Result<CubinView, CubinError> {
    match spec_header(d) {
        None => Err(CubinError::BadClass),
        Some(h) => spec_build(d, h),
    }
}

/// The contents of a list of sections.
pub open spec fn secs_view(v: Seq<SecHdr>) -> Seq<SecView> {
    v.map_values(|s: SecHdr| s@)
}

proof fn lemma_sections_err_extends(d: Seq<u8>, shs: Seq<SecHeader>, class32: bool, k: nat, e: CubinError)
    requires
        k <= shs.len(),
        spec_sections(d, shs.take(k as int), class32) == Err::<Seq<SecView>, CubinError>(e),
    ensures
        spec_sections(d, shs, class32) == Err::<Seq<SecView>, CubinError>(e),
    decreases shs.len() - k,
{
    if k < shs.len() {
        assert(shs.take(k + 1int).drop_last() =~= shs.take(k as int));
        lemma_sections_err_extends(d, shs, class32, (k + 1) as nat, e);
    } else {
        assert(shs.take(k as int) =~= shs);
    }
}

/// Reads the contents of each section of `shs` (see `spec_sections`).
pub fn read_sections(d: &Vec<u8>, shs: &Vec<SecHeader>, class32: bool) -> (r: Result<Vec<SecHdr>, CubinError>)
    ensures
        match r {
            Ok(v) => spec_sections(d@, shs@, class32) == Ok::<Seq<SecView>, CubinError>(secs_view(v@)),
            Err(e) => spec_sections(d@, shs@, class32) == Err::<Seq<SecView>, CubinError>(e),
        },
{
    let mut v: Vec<SecHdr> = Vec::new();
    let mut i: usize = 0;
    assert(shs@.take(0) =~= Seq::<SecHeader>::empty());
    assert(secs_view(v@) =~= Seq::<SecView>::empty());
    while i < shs.len()
        invariant
            i <= shs@.len(),
            spec_sections(d@, shs@.take(i as int), class32) == Ok::<Seq<SecView>, CubinError>(
                secs_view(v@),
            ),
        decreases shs@.len() - i,
    {
        assert(shs@.take(i + 1).drop_last() =~= shs@.take(i as int));
        assert(shs@.take(i + 1).last() == shs@[i as int]);
        match read_section(d, &shs[i], class32) {
            Ok(sec) => {
                let ghost before = v@;
                v.push(sec);
                assert(secs_view(v@) =~= secs_view(before).push(sec@));
            },
            Err(e) => {
                proof {
                    lemma_sections_err_extends(d@, shs@, class32, (i + 1) as nat, e);
                }
                return Err(e);
            },
        }
        i = i + 1;
    }
    assert(shs@.take(shs@.len() as int) =~= shs@);
    Ok(v)
}

/// `prefix` followed by `name`.
fn prefixed(prefix: &str, name: &String) -> (r: String)
    ensures
        r@ == prefix@ + name@,
{
    let mut c: Vec<char> = Vec::new();
    push_str(&mut c, prefix);
    push_str(&mut c, name.as_str());
    string_from_chars(&c)
}

/// The little-endian words of `b` (see `words_le`).
pub fn words_of(b: &Vec<u8>) -> (r: Vec<u32>)
    ensures
        r@ == words_le(b@),
{
    let n = b.len() / 4;
    let mut r: Vec<u32> = Vec::new();
    let mut i: usize = 0;
    while i < n
        invariant
            n == b@.len() / 4,
            i <= n,
            r@ == words_le(b@).take(i as int),
        decreases n - i,
    {
        assert(4 * i + 4 <= b.len()) by (nonlinear_arith)
            requires
                i < n,
                n == b.len() / 4,
        ;
        let w = read_u32(b, 4 * i);
        r.push(w);
        i = i + 1;
        assert(r@ =~= words_le(b@).take(i as int));
    }
    assert(words_le(b@).take(n as int) =~= words_le(b@));
    r
}

/// A copy of the strings `v`.
fn copy_strings(v: &Vec<String>) -> (r: Vec<String>)
    ensures
        r.deep_view() == v.deep_view(),
{
    let mut out: Vec<String> = Vec::new();
    let mut i: usize = 0;
    while i < v.len()
        invariant
            i <= v.len(),
            out.deep_view() == v.deep_view().take(i as int),
        decreases v.len() - i,
    {
        let ghost before = out.deep_view();
        out.push(v[i].clone());
        assert(out.deep_view() =~= before.push(v[i as int]@));
        i = i + 1;
        assert(v.deep_view().take(i as int) =~= before.push(v[i - 1]@));
    }
    assert(v.deep_view().take(v.len() as int) =~= v.deep_view());
    out
}

/// The context that the symbol pass reads, from the tables built so far.
pub open spec fn ctx_of(
    strtab: Seq<Seq<char>>,
    shs: Seq<SecHeader>,
    secs: Seq<SecHdr>,
    index: Map<Seq<char>, usize>,
) -> SymCtx {
    SymCtx {
        strtab,
        shdrs: shs,
        secs: secs_view(secs),
        index: index.map_values(|u: usize| u as int),
    }
}

/// Every position in `index` is below `n`.
pub open spec fn index_below(index: Map<Seq<char>, usize>, n: nat) -> bool {
    forall|k: Seq<char>| #[trigger] index.contains_key(k) ==> index[k] < n
}

/// The kernels of a table, by what each holds.
pub open spec fn kernels_view(m: Map<Seq<char>, KernelSection>) -> Map<Seq<char>, KernelView> {
    m.map_values(|k: KernelSection| k@)
}

/// The kernel of the function symbol `name` with info byte `info` and code
/// section number `shndx` (see `spec_kernel`).
fn kernel_of(
    strtab: &Vec<String>,
    shs: &Vec<SecHeader>,
    secs: &Vec<SecHdr>,
    index: &MutStrMap<usize>,
    name: &String,
    info: u8,
    shndx: usize,
) -> (r: Result<Option<KernelSection>, CubinError>)
    requires
        shndx < shs.len(),
        shs.len() == secs.len(),
        index_below(index@, secs@.len()),
    ensures
        ({
            let c = ctx_of(strtab.deep_view(), shs@, secs@, index@);
            let want = spec_kernel(c, name@, info, shs@[shndx as int], secs@[shndx as int]@);
            match r {
                Ok(Some(k)) => want == Ok::<Option<KernelView>, CubinError>(Some(k@)),
                Ok(None) => want == Ok::<Option<KernelView>, CubinError>(None),
                Err(e) => want == Err::<Option<KernelView>, CubinError>(e),
            }
        }),
{
    let ghost c = ctx_of(strtab.deep_view(), shs@, secs@, index@);
    let linkage = match binding(info) {
        Some(b) => b,
        None => return Err(CubinError::BadBinding),
    };
    let data = match &secs[shndx] {
        SecHdr::Other(_, bytes) => {
            let v = copy_bytes(bytes, 0, bytes.len());
            assert(v@ =~= bytes@);
            v
        },
        _ => return Err(CubinError::BadKernelSection),
    };
    let sh = shs[shndx];
    let bar_cnt = ((sh.sh_flags & 0x01f00000) >> 20u64) as u32;
    let reg_cnt = (sh.sh_info & 0xff000000) >> 24u32;
    let shared_key = prefixed(".nv.shared.", name);
    let (shared_size, shared_sec) = match index.get(shared_key.as_str()) {
        Some(i) => (shs[*i].sh_size as u32, Some(secs[*i].copy())),
        None => (0, None),
    };
    let const_key = prefixed(".nv.constant0.", name);
    let constant_sec = match index.get(const_key.as_str()) {
        Some(i) => secs[*i].copy(),
        None => return Err(CubinError::NoConstantSection),
    };
    let info_key = prefixed(".nv.info.", name);
    let pi = match index.get(info_key.as_str()) {
        Some(i) => *i,
        None => return Ok(None),
    };
    let words = match &secs[pi] {
        SecHdr::Other(_, pd) => words_of(pd),
        _ => return Err(CubinError::BadKernelSection),
    };
    let param_sec = match extract_param_sec(&words) {
        Some(p) => p,
        None => return Err(CubinError::BadParamSection),
    };
    proof {
        assert(c.index.contains_key(shared_key@) == index@.contains_key(shared_key@));
        assert(c.index.contains_key(const_key@));
        assert(c.index.contains_key(info_key@));
        assert(c.secs[c.index[const_key@]] == constant_sec@);
        assert(c.secs[c.index[info_key@]] == secs@[pi as int]@);
        if index@.contains_key(shared_key@) {
            assert(c.secs[c.index[shared_key@]] == shared_sec.unwrap()@);
            assert(c.shdrs[c.index[shared_key@]].sh_size as u32 == shared_size);
        }
    }
    let k = KernelSection {
        name: name.clone(),
        constant_sec,
        shared_sec,
        linkage,
        instr_cnt: 0,
        bar_cnt,
        reg_cnt,
        shared_size,
        param_cnt: 0,
        size: 0,
        data,
        param_sec: Some(param_sec),
    };
    Ok(Some(k))
}

/// One step of the symbol pass (see `step_symbol`).
fn step_symbol_exec(
    strtab: &Vec<String>,
    shs: &Vec<SecHeader>,
    secs: &Vec<SecHdr>,
    index: &MutStrMap<usize>,
    symbols: &mut MutStrMap<ElfSymbol>,
    kernels: &mut MutStrMap<KernelSection>,
    e: ElfSymbol,
) -> (r: Result<(), CubinError>)
    requires
        shs.len() == secs.len(),
        index_below(index@, secs@.len()),
    ensures
        ({
            let c = ctx_of(strtab.deep_view(), shs@, secs@, index@);
            let t = SymTables { symbols: old(symbols)@, kernels: kernels_view(old(kernels)@) };
            match r {
                Ok(()) => step_symbol(c, t, e) == Ok::<SymTables, CubinError>(
                    SymTables { symbols: final(symbols)@, kernels: kernels_view(final(kernels)@) },
                ),
                Err(err) => step_symbol(c, t, e) == Err::<SymTables, CubinError>(err),
            }
        }),
{
    let s = match e {
        ElfSymbol::Sym32(s) => s,
        ElfSymbol::Sym64(s) => s,
    };
    let name_at = s.st_name as usize;
    let shndx = s.st_shndx as usize;
    if name_at >= strtab.len() {
        return Err(CubinError::BadName);
    }
    if shndx >= shs.len() {
        return Err(CubinError::BadSymbol);
    }
    let name = &strtab[name_at];
    assert(strtab.deep_view()[name_at as int] == name@);
    if s.st_info & 0x10 == 0x10 {
        symbols.insert(name.as_str(), e);
        return Ok(());
    }
    if s.st_info & 0x0f != 2 {
        return Ok(());
    }
    symbols.insert(name.as_str(), e);
    match kernel_of(strtab, shs, secs, index, name, s.st_info, shndx) {
        Err(err) => Err(err),
        Ok(None) => Ok(()),
        Ok(Some(k)) => {
            let ghost kv = k@;
            let ghost before = kernels_view(kernels@);
            kernels.insert(name.as_str(), k);
            assert(kernels_view(kernels@) =~= before.insert(name@, kv));
            Ok(())
        },
    }
}

proof fn lemma_symbols_err_extends(c: SymCtx, syms: Seq<ElfSymbol>, k: nat, e: CubinError)
    requires
        k <= syms.len(),
        spec_symbols(c, syms.take(k as int)) == Err::<SymTables, CubinError>(e),
    ensures
        spec_symbols(c, syms) == Err::<SymTables, CubinError>(e),
    decreases syms.len() - k,
{
    if k < syms.len() {
        assert(syms.take(k + 1int).drop_last() =~= syms.take(k as int));
        lemma_symbols_err_extends(c, syms, (k + 1) as nat, e);
    } else {
        assert(syms.take(k as int) =~= syms);
    }
}

proof fn lemma_sections_len(d: Seq<u8>, shs: Seq<SecHeader>, class32: bool)
    requires
        spec_sections(d, shs, class32) is Ok,
    ensures
        spec_sections(d, shs, class32)->Ok_0.len() == shs.len(),
    decreases shs.len(),
{
    if shs.len() > 0 {
        lemma_sections_len(d, shs.drop_last(), class32);
    }
}

/// The names of the sections `shs`, from the string table `strtab` (see
/// `spec_names`); `None` where a name offset is past its end.
fn section_names(strtab: &Vec<String>, shs: &Vec<SecHeader>) -> (r: Option<Vec<String>>)
    ensures
        match r {
            Some(v) => names_ok(strtab.deep_view(), shs@) && v.deep_view() == spec_names(
                strtab.deep_view(),
                shs@,
            ),
            None => !names_ok(strtab.deep_view(), shs@),
        },
{
    let ghost st = strtab.deep_view();
    let mut names: Vec<String> = Vec::new();
    let mut i: usize = 0;
    assert(shs@.take(0) =~= Seq::<SecHeader>::empty());
    assert(names.deep_view() =~= spec_names(st, shs@.take(0)));
    while i < shs.len()
        invariant
            i <= shs@.len(),
            st == strtab.deep_view(),
            names.deep_view() == spec_names(st, shs@.take(i as int)),
            forall|j: int| 0 <= j < i ==> #[trigger] shs@[j].sh_name < st.len(),
        decreases shs@.len() - i,
    {
        let k = shs[i].sh_name as usize;
        if k >= strtab.len() {
            assert(!names_ok(st, shs@)) by {
                assert(shs@[i as int].sh_name >= st.len());
            }
            return None;
        }
        let ghost before = names.deep_view();
        let t = strtab[k].clone();
        assert(st[k as int] == t@);
        names.push(t);
        assert(names.deep_view() =~= before.push(t@));
        i = i + 1;
        assert(names.deep_view() =~= spec_names(st, shs@.take(i as int)));
    }
    assert(shs@.take(shs@.len() as int) =~= shs@);
    Some(names)
}

/// Each name's last position, and each name's section contents (see
/// `name_index`).
fn index_sections(names: &Vec<String>, secs: &Vec<SecHdr>) -> (r: (MutStrMap<usize>, MutStrMap<SecHdr>))
    requires
        names.len() == secs.len(),
    ensures
        r.0@.map_values(|u: usize| u as int) == name_index(names.deep_view()),
        index_below(r.0@, secs@.len() as nat),
        r.1@.map_values(|s: SecHdr| s@) == name_index(names.deep_view()).map_values(
            |j: int| secs_view(secs@)[j],
        ),
{
    let ghost nv = names.deep_view();
    let ghost secv = secs_view(secs@);
    let mut index: MutStrMap<usize> = MutStrMap::new();
    let mut sections: MutStrMap<SecHdr> = MutStrMap::new();
    let mut i: usize = 0;
    assert(nv.take(0) =~= Seq::<Seq<char>>::empty());
    assert(index@.map_values(|u: usize| u as int) =~= Map::<Seq<char>, int>::empty());
    assert(sections@.map_values(|s: SecHdr| s@) =~= Map::<Seq<char>, SecView>::empty());
    while i < names.len()
        invariant
            i <= names@.len(),
            nv == names.deep_view(),
            names@.len() == secs@.len(),
            secv == secs_view(secs@),
            index@.map_values(|u: usize| u as int) == name_index(nv.take(i as int)),
            index_below(index@, i as nat),
            sections@.map_values(|s: SecHdr| s@) == name_index(nv.take(i as int)).map_values(
                |j: int| secv[j],
            ),
        decreases names@.len() - i,
    {
        assert(nv.take(i + 1).drop_last() =~= nv.take(i as int));
        assert(nv.take(i + 1).last() == names[i as int]@);
        let ghost ni = name_index(nv.take(i as int));
        let ghost key = names[i as int]@;
        assert(name_index(nv.take(i + 1)) == ni.insert(key, i as int));
        let ghost iv = index@;
        let ghost sv = sections@;
        index.insert(names[i].as_str(), i);
        let sec = secs[i].copy();
        assert(sec@ == secv[i as int]);
        sections.insert(names[i].as_str(), sec);
        assert(index@ == iv.insert(key, i));
        assert(sections@ == sv.insert(key, sec));
        i = i + 1;
        assert(index@.map_values(|u: usize| u as int) =~= name_index(nv.take(i as int)));
        proof {
            let lhs = sections@.map_values(|s: SecHdr| s@);
            let rhs = ni.insert(key, (i - 1) as int).map_values(|j: int| secv[j]);
            let old_l = sv.map_values(|s: SecHdr| s@);
            let old_r = ni.map_values(|j: int| secv[j]);
            assert forall|k: Seq<char>| #[trigger] lhs.contains_key(k) implies lhs[k] == rhs[k] by {
                if k != key {
                    assert(old_l.contains_key(k));
                    assert(old_l[k] == old_r[k]);
                }
            }
            assert(old_l.dom() =~= sv.dom());
            assert(old_r.dom() =~= ni.dom());
            assert(lhs.dom() =~= rhs.dom());
            assert(lhs =~= rhs);
        }
    }
    assert(nv.take(names@.len() as int) =~= nv);
    (index, sections)
}

/// The symbol pass over `syms` (see `spec_symbols`).
fn symbols_pass(
    strtab: &Vec<String>,
    shs: &Vec<SecHeader>,
    secs: &Vec<SecHdr>,
    index: &MutStrMap<usize>,
    syms: &Vec<ElfSymbol>,
) -> (r: Result<(MutStrMap<ElfSymbol>, MutStrMap<KernelSection>), CubinError>)
    requires
        shs.len() == secs.len(),
        index_below(index@, secs@.len() as nat),
    ensures
        ({
            let c = ctx_of(strtab.deep_view(), shs@, secs@, index@);
            match r {
                Ok((s, k)) => spec_symbols(c, syms@) == Ok::<SymTables, CubinError>(
                    SymTables { symbols: s@, kernels: kernels_view(k@) },
                ),
                Err(e) => spec_symbols(c, syms@) == Err::<SymTables, CubinError>(e),
            }
        }),
{
    let ghost c = ctx_of(strtab.deep_view(), shs@, secs@, index@);
    let mut symbols: MutStrMap<ElfSymbol> = MutStrMap::new();
    let mut kernels: MutStrMap<KernelSection> = MutStrMap::new();
    let mut j: usize = 0;
    assert(syms@.take(0) =~= Seq::<ElfSymbol>::empty());
    assert(kernels_view(kernels@) =~= Map::<Seq<char>, KernelView>::empty());
    while j < syms.len()
        invariant
            j <= syms@.len(),
            shs@.len() == secs@.len(),
            index_below(index@, secs@.len() as nat),
            c == ctx_of(strtab.deep_view(), shs@, secs@, index@),
            spec_symbols(c, syms@.take(j as int)) == Ok::<SymTables, CubinError>(
                SymTables { symbols: symbols@, kernels: kernels_view(kernels@) },
            ),
        decreases syms@.len() - j,
    {
        assert(syms@.take(j + 1).drop_last() =~= syms@.take(j as int));
        assert(syms@.take(j + 1).last() == syms@[j as int]);
        match step_symbol_exec(strtab, shs, secs, index, &mut symbols, &mut kernels, syms[j]) {
            Ok(()) => {},
            Err(e) => {
                proof {
                    lemma_symbols_err_extends(c, syms@, (j + 1) as nat, e);
                }
                return Err(e);
            },
        }
        j = j + 1;
    }
    assert(syms@.take(syms@.len() as int) =~= syms@);
    Ok((symbols, kernels))
}

/// A cubin: its class, architecture and address size, its header tables,
/// its sections by name, and its symbols and kernels by name.
pub struct Cubin {
    pub class: u32,
    pub arch: u32,
    pub addr_size: u32,
    pub prg_hdrs: Vec<PrgHeader>,
    pub sec_hdrs: Vec<SecHeader>,
    pub sections: MutStrMap<SecHdr>,
    pub symbols: MutStrMap<ElfSymbol>,
    pub kernels: MutStrMap<KernelSection>,
}

impl View for Cubin {
    type V = CubinView;

    open spec fn view(&self) -> CubinView {
        CubinView {
            class: self.class,
            arch: self.arch,
            addr_size: self.addr_size,
            prg_hdrs: self.prg_hdrs@,
            sec_hdrs: self.sec_hdrs@,
            sections: self.sections@.map_values(|s: SecHdr| s@),
            symbols: self.symbols@,
            kernels: kernels_view(self.kernels@),
        }
    }
}

impl Cubin {
    /// Reads the cubin held in the bytes `data` (see `spec_cubin`).
    pub fn new(data: &Vec<u8>) -> (r: Result<Cubin, CubinError>)
        ensures
            match r {
                Ok(c) => spec_cubin(data@) == Ok::<CubinView, CubinError>(c@),
                Err(e) => spec_cubin(data@) == Err::<CubinView, CubinError>(e),
            },
    {
        match read_header(data) {
            None => Err(CubinError::BadClass),
            Some(h) => Self::build(&h, data),
        }
    }

    /// Reads the cubin held in `d`, whose header is `h` (see `spec_build`).
    pub fn build(h: &ElfHeader, d: &Vec<u8>) -> (r: Result<Cubin, CubinError>)
        ensures
            match r {
                Ok(c) => spec_build(d@, *h) == Ok::<CubinView, CubinError>(c@),
                Err(e) => spec_build(d@, *h) == Err::<CubinView, CubinError>(e),
            },
    {
        let prg = match read_prg_headers(d, h) {
            Some(v) => v,
            None => return Err(CubinError::Truncated),
        };
        let shs = match read_sec_headers(d, h) {
            Some(v) => v,
            None => return Err(CubinError::Truncated),
        };
        let secs = match read_sections(d, &shs, h.class32) {
            Ok(v) => v,
            Err(e) => return Err(e),
        };
        proof {
            lemma_sections_len(d@, shs@, h.class32);
        }
        let si = h.shstrndx as usize;
        if si >= secs.len() {
            return Err(CubinError::NoStrTab);
        }
        let strtab: &Vec<String> = match &secs[si] {
            SecHdr::StrTab(t, _) => t,
            _ => return Err(CubinError::NoStrTab),
        };
        let names = match section_names(strtab, &shs) {
            Some(n) => n,
            None => return Err(CubinError::BadName),
        };
        let (index, sections) = index_sections(&names, &secs);
        let ti = match index.get(".symtab") {
            Some(t) => *t,
            None => return Err(CubinError::NoSymTab),
        };
        let syms: &Vec<ElfSymbol> = match &secs[ti] {
            SecHdr::SymTab(v, _) => v,
            _ => return Err(CubinError::NoSymTab),
        };
        let (symbols, kernels) = match symbols_pass(strtab, &shs, &secs, &index, syms) {
            Ok(t) => t,
            Err(e) => return Err(e),
        };
        let class: u32 = if h.class32 {
            32
        } else {
            64
        };
        let addr_size: u32 = if h.flags & 0x400 == 0x400 {
            64
        } else {
            32
        };
        let cubin = Cubin {
            class,
            arch: h.flags & 0xff,
            addr_size,
            prg_hdrs: prg,
            sec_hdrs: shs,
            sections,
            symbols,
            kernels,
        };
        Ok(cubin)
    }
}

/// The tables of the symbol pass keep every kernel under its own name, and
/// only under the name of a recorded symbol.
pub open spec fn tables_ok(t: SymTables) -> bool {
    forall|k: Seq<char>| #[trigger] t.kernels.contains_key(k) ==> t.symbols.contains_key(k)
        && t.kernels[k].name == k
}

proof fn lemma_symbols_tables_ok(c: SymCtx, syms: Seq<ElfSymbol>)
    requires
        spec_symbols(c, syms) is Ok,
    ensures
        tables_ok(spec_symbols(c, syms)->Ok_0),
    decreases syms.len(),
{
    if syms.len() > 0 {
        let t0 = spec_symbols(c, syms.drop_last());
        if t0 is Ok {
            lemma_symbols_tables_ok(c, syms.drop_last());
        }
    }
}

/// Every kernel of a cubin is one of its symbols, and is kept under the
/// symbol's name.
pub proof fn law_kernels_are_symbols(d: Seq<u8>)
    requires
        spec_cubin(d) is Ok,
    ensures
        ({
            let c = spec_cubin(d)->Ok_0;
            &&& forall|k: Seq<char>| #[trigger] c.kernels.contains_key(k) ==> c.symbols.contains_key(k)
                && c.kernels[k].name == k
        }),
{
    let h = spec_header(d)->0;
    let prg = spec_prg_headers(d, h)->0;
    let shs = spec_sec_headers(d, h)->0;
    let secs = spec_sections(d, shs, h.class32)->Ok_0;
    let strtab = secs[h.shstrndx as int]->StrTab_0;
    let index = name_index(spec_names(strtab, shs));
    let key = ".symtab"@;
    let ctx = SymCtx { strtab, shdrs: shs, secs, index };
    lemma_symbols_tables_ok(ctx, secs[index[key]]->SymTab_0);
}

/// The keys that attributes are stored under.
pub open spec fn is_attr_key(k: Seq<char>) -> bool {
    k == "MAXREG_COUNT"@ || k == "CTAIDOffsets"@ || k == "ExitOffsets"@ || k == "CTADIZUsed"@ || k
        == "REQNTID"@ || k == "MAXNTID"@ || k == "STACKSIZE"@
}

proof fn lemma_attrs_keep(data: Seq<u32>, idx: int, m: Map<Seq<char>, ParamSpec>, k: Seq<char>)
    requires
        attrs_from(data, idx, m) is Some,
        !is_attr_key(k),
    ensures
        attrs_from(data, idx, m)->0.contains_key(k) == m.contains_key(k),
        m.contains_key(k) ==> attrs_from(data, idx, m)->0[k] == m[k],
    decreases data.len() - idx,
{
    if !(idx < 0 || idx >= data.len()) {
        let code = data[idx] & 0xffffu32;
        let size = data[idx] >> 16u32;
        let step = (size / 4) as int;
        let m2 = match attr_entry(code, size, data.subrange(idx + 1, idx + 1 + step)) {
            Some((k2, v)) => m.insert(k2, v),
            None => m,
        };
        lemma_attrs_keep(data, idx + 1 + step, m2, k);
    }
}

/// Whatever attributes follow, a readable parameter section keeps the
/// section's words under `ParamData` and one hex text per word under
/// `ParamHex`.
pub proof fn law_param_sec_words(data: Seq<u32>)
    requires
        spec_param_sec(data) is Some,
    ensures
        spec_param_sec(data)->0.contains_key("ParamData"@),
        spec_param_sec(data)->0["ParamData"@] == ParamSpec::Data(data),
        spec_param_sec(data)->0.contains_key("ParamHex"@),
        spec_param_sec(data)->0["ParamHex"@] == ParamSpec::Hex(
            data.map_values(|v: u32| hex32_text(v)),
        ),
{
    reveal_strlit("ParamData");
    reveal_strlit("ParamHex");
    reveal_strlit("StaticParams");
    reveal_strlit("MAXREG_COUNT");
    reveal_strlit("CTAIDOffsets");
    reveal_strlit("ExitOffsets");
    reveal_strlit("CTADIZUsed");
    reveal_strlit("REQNTID");
    reveal_strlit("MAXNTID");
    reveal_strlit("STACKSIZE");
    assert forall|p: Seq<char>| p[0] == 'P' implies !is_attr_key(p) by {
        assert("MAXREG_COUNT"@[0] == 'M');
        assert("CTAIDOffsets"@[0] == 'C');
        assert("ExitOffsets"@[0] == 'E');
        assert("CTADIZUsed"@[0] == 'C');
        assert("REQNTID"@[0] == 'R');
        assert("MAXNTID"@[0] == 'M');
        assert("STACKSIZE"@[0] == 'S');
    }
    assert("ParamData"@[0] == 'P' && "ParamHex"@[0] == 'P' && "StaticParams"@[0] == 'S');
    assert("ParamData"@[5] == 'D' && "ParamHex"@[5] == 'H');
    let d = find_delim(data, 0);
    let first = data[d + 2] & 0xffffu32;
    let e = params_end(data, first, d + 4)->0;
    let base = Map::<Seq<char>, ParamSpec>::empty().insert("ParamData"@, ParamSpec::Data(data)).insert(
        "ParamHex"@,
        ParamSpec::Hex(data.map_values(|v: u32| hex32_text(v))),
    ).insert("StaticParams"@, ParamSpec::Data(data.subrange(0, e - 1)));
    lemma_attrs_keep(data, e, base, "ParamData"@);
    lemma_attrs_keep(data, e, base, "ParamHex"@);
}


/// The key and value that an attribute with code `code`, byte size `size`
/// and words `slice` is stored under: register count (0x1b03, its size),
/// CTAID offsets (0x1d04), exit instruction offsets (0x1c04), CTAID.Z use
/// (0x0401, a flag), required and maximum thread counts (0x1004, 0x0504)
/// and stack size (0x1e04), the last five with their words.
pub open spec fn attribute_table(code: u32, size: u32, slice: Seq<u32>) -> Option<(Seq<char>, ParamSpec)> {
    if code == 0x1c04 {
        Some(("ExitOffsets"@, ParamSpec::Data(slice)))
    } else if code == 0x1d04 {
        Some(("CTAIDOffsets"@, ParamSpec::Data(slice)))
    } else if code == 0x1b03 {
        Some(("MAXREG_COUNT"@, ParamSpec::Size(size)))
    } else if code == 0x0401 {
        Some(("CTADIZUsed"@, ParamSpec::Flag(true)))
    } else if code == 0x1004 {
        Some(("REQNTID"@, ParamSpec::Data(slice)))
    } else if code == 0x0504 {
        Some(("MAXNTID"@, ParamSpec::Data(slice)))
    } else if code == 0x1e04 {
        Some(("STACKSIZE"@, ParamSpec::Data(slice)))
    } else {
        None
    }
}

/// A parameter section made of the parameter-list delimiter, three more
/// words and one attribute word (its code in the low half, its byte size in
/// the high half) followed by the size / 4 words it holds, is read; a known
/// attribute is stored under its own key (see `attribute_table`) and no
/// other attribute key is present: so the exit instruction offsets (0x1c04)
/// go under `ExitOffsets` and never under `CTAIDOffsets`.
pub proof fn law_attribute_keys(data: Seq<u32>, k: nat)
    requires
        data.len() == 5 + k,
        data[0] == PARAM_DELIM,
        (data[4] >> 16u32) / 4 == k,
        attribute_table(data[4] & 0xffffu32, data[4] >> 16u32, data.subrange(5, 5 + k as int)) is Some,
    ensures
        spec_param_sec(data) is Some,
        ({
            let m = spec_param_sec(data)->0;
            let (key, val) = attribute_table(data[4] & 0xffffu32, data[4] >> 16u32, data.subrange(5, 5 + k as int))->0;
            &&& m.contains_key(key)
            &&& m[key] == val
            &&& forall|other: Seq<char>| is_attr_key(other) && other != key ==> !m.contains_key(other)
        }),
{
    reveal_strlit("ParamData");
    reveal_strlit("ParamHex");
    reveal_strlit("StaticParams");
    reveal_strlit("MAXREG_COUNT");
    reveal_strlit("CTAIDOffsets");
    reveal_strlit("ExitOffsets");
    reveal_strlit("CTADIZUsed");
    reveal_strlit("REQNTID");
    reveal_strlit("MAXNTID");
    reveal_strlit("STACKSIZE");
    assert forall|p: Seq<char>| p[0] == 'P' implies !is_attr_key(p) by {
        assert("MAXREG_COUNT"@[0] == 'M');
        assert("CTAIDOffsets"@[0] == 'C');
        assert("ExitOffsets"@[0] == 'E');
        assert("CTADIZUsed"@[0] == 'C');
        assert("REQNTID"@[0] == 'R');
        assert("MAXNTID"@[0] == 'M');
        assert("STACKSIZE"@[0] == 'S');
    }
    assert("StaticParams"@[1] == 't' && "STACKSIZE"@[1] == 'T');
    assert("StaticParams"@ != "STACKSIZE"@);
    assert("ParamData"@[0] == 'P' && "ParamHex"@[0] == 'P');
    let w = data[4];
    let code = w & 0xffffu32;
    assert(code != 0x1704u32);
    assert(w != PARAM_ENTRY) by {
        assert(w == 0x000c1704u32 ==> w & 0xffffu32 == 0x1704u32) by (bit_vector);
    }
    assert(find_delim(data, 0) == 0);
    let first = data[2] & 0xffffu32;
    assert(params_end(data, first, 4) == Some(4int));
    let base = Map::<Seq<char>, ParamSpec>::empty().insert("ParamData"@, ParamSpec::Data(data)).insert(
        "ParamHex"@,
        ParamSpec::Hex(data.map_values(|v: u32| hex32_text(v))),
    ).insert("StaticParams"@, ParamSpec::Data(data.subrange(0, 3)));
    let size = w >> 16u32;
    let slice = data.subrange(5, 5 + k as int);
    assert(attr_entry(code, size, slice) == attribute_table(code, size, slice));
    let m2 = match attr_entry(code, size, slice) {
        Some((key, v)) => base.insert(key, v),
        None => base,
    };
    assert(attrs_from(data, 5 + k as int, m2) == Some(m2));
    assert(attrs_from(data, 4, base) == Some(m2));
    let (key, val) = attribute_table(code, size, slice)->0;
    assert forall|other: Seq<char>| is_attr_key(other) && other != key implies !m2.contains_key(other) by {
    }
}

/// Every kernel that the symbol pass makes takes its shared memory from the
/// section named `.nv.shared.<kernel>`: its shared size is the `sh_size` (as
/// 32 bits) of that section's header and its shared section is that
/// section's contents; without such a section the size is 0 and there is no
/// shared section.
pub proof fn law_kernel_shared_memory(c: SymCtx, syms: Seq<ElfSymbol>, k: Seq<char>)
    requires
        spec_symbols(c, syms) is Ok,
        spec_symbols(c, syms)->Ok_0.kernels.contains_key(k),
    ensures
        ({
            let kv = spec_symbols(c, syms)->Ok_0.kernels[k];
            let key = ".nv.shared."@ + k;
            if c.index.contains_key(key) {
                kv.shared_size == c.shdrs[c.index[key]].sh_size as u32 && kv.shared_sec == Some(
                    c.secs[c.index[key]],
                )
            } else {
                kv.shared_size == 0 && kv.shared_sec is None
            }
        }),
    decreases syms.len(),
{
    let t0 = spec_symbols(c, syms.drop_last());
    let t = t0->Ok_0;
    if t.kernels.contains_key(k) {
        let e = syms.last();
        let s = e.sym();
        let name = c.strtab[s.st_name as int];
        if !(s.st_info & 0x10 != 0x10 && s.st_info & 0x0f == 2 && name == k) {
            law_kernel_shared_memory(c, syms.drop_last(), k);
        } else {
            match spec_kernel(c, name, s.st_info, c.shdrs[s.st_shndx as int], c.secs[s.st_shndx as int]) {
                Ok(Some(kv)) => {},
                _ => {
                    law_kernel_shared_memory(c, syms.drop_last(), k);
                },
            }
        }
    }
}

/// Every kernel that the symbol pass makes comes from a function symbol of
/// its name: the kernel's code is the contents of that symbol's section,
/// its barrier count is bits 20 to 24 of that section header's flags, and
/// its register count is the top byte of the header's `sh_info`.
pub proof fn law_kernel_code_section(c: SymCtx, syms: Seq<ElfSymbol>, k: Seq<char>)
    requires
        spec_symbols(c, syms) is Ok,
        spec_symbols(c, syms)->Ok_0.kernels.contains_key(k),
    ensures
        exists|x: int|
            0 <= x < syms.len() && #[trigger] syms[x].sym().st_name < c.strtab.len()
                && c.strtab[syms[x].sym().st_name as int] == k && syms[x].sym().st_info & 0x0f == 2
                && syms[x].sym().st_shndx < c.shdrs.len() && ({
                let i = syms[x].sym().st_shndx as int;
                let kv = spec_symbols(c, syms)->Ok_0.kernels[k];
                &&& c.secs[i] matches SecView::Other(_, data) && kv.data == data
                &&& kv.bar_cnt == ((c.shdrs[i].sh_flags & 0x01f00000) >> 20u64) as u32
                &&& kv.reg_cnt == (c.shdrs[i].sh_info & 0xff000000) >> 24u32
            }),
    decreases syms.len(),
{
    let t = spec_symbols(c, syms.drop_last())->Ok_0;
    let n = syms.len() - 1;
    let e = syms.last();
    let s = e.sym();
    let name = c.strtab[s.st_name as int];
    let inserted = s.st_info & 0x10 != 0x10 && s.st_info & 0x0f == 2 && name == k && (spec_kernel(
        c,
        name,
        s.st_info,
        c.shdrs[s.st_shndx as int],
        c.secs[s.st_shndx as int],
    ) matches Ok(Some(_)));
    if inserted {
        assert(syms[n] == e);
    } else {
        law_kernel_code_section(c, syms.drop_last(), k);
        let x = choose|x: int|
            0 <= x < syms.drop_last().len() && #[trigger] syms.drop_last()[x].sym().st_name < c.strtab.len()
                && c.strtab[syms.drop_last()[x].sym().st_name as int] == k && syms.drop_last()[x].sym().st_info & 0x0f == 2
                && syms.drop_last()[x].sym().st_shndx < c.shdrs.len() && ({
                let i = syms.drop_last()[x].sym().st_shndx as int;
                let kv = t.kernels[k];
                &&& c.secs[i] matches SecView::Other(_, data) && kv.data == data
                &&& kv.bar_cnt == ((c.shdrs[i].sh_flags & 0x01f00000) >> 20u64) as u32
                &&& kv.reg_cnt == (c.shdrs[i].sh_info & 0xff000000) >> 24u32
            });
        assert(syms[x] == syms.drop_last()[x]);
    }
}

/// The name of each section of the cubin `d`, position by position, as its
/// section-name string table gives them.
pub open spec fn cubin_section_names(d: Seq<u8>) -> Seq<Seq<char>> {
    let h = spec_header(d)->0;
    let shs = spec_sec_headers(d, h)->0;
    let secs = spec_sections(d, shs, h.class32)->Ok_0;
    spec_names(secs[h.shstrndx as int]->StrTab_0, shs)
}

proof fn lemma_name_index(names: Seq<Seq<char>>, n: Seq<char>)
    ensures
        name_index(names).contains_key(n) <==> names.contains(n),
        name_index(names).contains_key(n) ==> {
            let i = name_index(names)[n];
            &&& 0 <= i < names.len()
            &&& names[i] == n
            &&& forall|j: int| i < j < names.len() ==> names[j] != n
        },
    decreases names.len(),
{
    if names.len() > 0 {
        let pre = names.drop_last();
        lemma_name_index(pre, n);
        assert forall|j: int| 0 <= j < pre.len() implies #[trigger] names[j] == pre[j] by {}
        if names.last() != n && pre.contains(n) {
            let j = choose|j: int| 0 <= j < pre.len() && pre[j] == n;
            assert(names[j] == n);
        }
        if names.contains(n) && names.last() != n {
            let j = choose|j: int| 0 <= j < names.len() && names[j] == n;
            assert(pre[j] == n);
        }
    }
}

/// Every kernel of a cubin has the shared memory of its section
/// `.nv.shared.<kernel>`: where the cubin has that section, the kernel's
/// shared section is its contents, and its shared size is the `sh_size` (as
/// 32 bits) of the header at the last position that bears that name; where
/// it has none, the size is 0 and there is no shared section.
pub proof fn law_cubin_shared_memory(d: Seq<u8>, k: Seq<char>)
    requires
        spec_cubin(d) is Ok,
        spec_cubin(d)->Ok_0.kernels.contains_key(k),
    ensures
        ({
            let v = spec_cubin(d)->Ok_0;
            let key = ".nv.shared."@ + k;
            let names = cubin_section_names(d);
            if v.sections.contains_key(key) {
                &&& v.kernels[k].shared_sec == Some(v.sections[key])
                &&& exists|j: int|
                    0 <= j < names.len() && names.len() == v.sec_hdrs.len() && #[trigger] names[j] == key
                        && (forall|i: int| j < i < names.len() ==> names[i] != key)
                        && v.kernels[k].shared_size == v.sec_hdrs[j].sh_size as u32
            } else {
                v.kernels[k].shared_size == 0 && v.kernels[k].shared_sec is None
            }
        }),
{
    let h = spec_header(d)->0;
    let shs = spec_sec_headers(d, h)->0;
    let secs = spec_sections(d, shs, h.class32)->Ok_0;
    let strtab = secs[h.shstrndx as int]->StrTab_0;
    let names = spec_names(strtab, shs);
    let index = name_index(names);
    let ctx = SymCtx { strtab, shdrs: shs, secs, index };
    let syms = secs[index[".symtab"@]]->SymTab_0;
    let t = spec_symbols(ctx, syms)->Ok_0;
    let v = spec_cubin(d)->Ok_0;
    assert(v.kernels == t.kernels && v.sec_hdrs == shs && v.sections == index.map_values(|i: int| secs[i])
        && cubin_section_names(d) == names);
    let key = ".nv.shared."@ + k;
    law_kernel_shared_memory(ctx, syms, k);
    lemma_name_index(names, key);
    if index.contains_key(key) {
        let j = index[key];
        assert(names[j] == key);
        assert(v.sections[key] == secs[j]);
    }
}

} // verus!
