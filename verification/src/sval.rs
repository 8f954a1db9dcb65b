//! The values a cubin is described by: symbols, section contents, symbol
//! bindings and kernel sections.
use vstd::prelude::*;

use crate::cubin::{ParamSpec, ParamVal, Sym};
use crate::mut_map::MutStrMap;

verus! {

/// A symbol-table entry, tagged with the class of the file it was read from.
#[derive(Clone, Copy, PartialEq, Eq, Structural, Debug)]
pub enum ElfSymbol {
    Sym32(Sym),
    Sym64(Sym),
}

impl ElfSymbol {
    /// The entry, whichever the class.
    pub open spec fn sym(self) -> Sym {
        match self {
            ElfSymbol::Sym32(s) => s,
            ElfSymbol::Sym64(s) => s,
        }
    }

    /// The offset of the symbol's name.
    pub fn name(&self) -> (r: usize)
        ensures
            r == self.sym().st_name,
    {
        match self {
            ElfSymbol::Sym32(s) => s.st_name as usize,
            ElfSymbol::Sym64(s) => s.st_name as usize,
        }
    }

    /// The index of the section the symbol belongs to.
    pub fn shndx(&self) -> (r: usize)
        ensures
            r == self.sym().st_shndx,
    {
        match self {
            ElfSymbol::Sym32(s) => s.st_shndx as usize,
            ElfSymbol::Sym64(s) => s.st_shndx as usize,
        }
    }

    /// The symbol's type and binding byte.
    pub fn info(&self) -> (r: usize)
        ensures
            r == self.sym().st_info,
    {
        match self {
            ElfSymbol::Sym32(s) => s.st_info as usize,
            ElfSymbol::Sym64(s) => s.st_info as usize,
        }
    }
}

/// The contents of a section, by its type.
pub enum SecHdr {
    /// A string table: its strings and its bytes.
    StrTab(Vec<String>, Vec<u8>),
    /// A symbol table: its entries and its bytes.
    SymTab(Vec<ElfSymbol>, Vec<u8>),
    /// A section with no bytes in the file.
    Empty,
    /// Any other section: its type and its bytes.
    Other(u32, Vec<u8>),
}

/// What a `SecHdr` holds.
pub enum SecView {
    StrTab(Seq<Seq<char>>, Seq<u8>),
    SymTab(Seq<ElfSymbol>, Seq<u8>),
    Empty,
    Other(u32, Seq<u8>),
}

impl View for SecHdr {
    type V = SecView;

    open spec fn view(&self) -> SecView {
        match self {
            SecHdr::StrTab(s, b) => SecView::StrTab(s.deep_view(), b@),
            SecHdr::SymTab(s, b) => SecView::SymTab(s@, b@),
            SecHdr::Empty => SecView::Empty,
            SecHdr::Other(t, b) => SecView::Other(*t, b@),
        }
    }
}

impl SecHdr {
    /// A copy with the same contents.
    pub fn copy(&self) -> (r: SecHdr)
        ensures
            r@ == self@,
    {
        match self {
            SecHdr::StrTab(s, b) => {
                let mut v: Vec<String> = Vec::new();
                let mut i: usize = 0;
                while i < s.len()
                    invariant
                        i <= s.len(),
                        v.deep_view() == s.deep_view().take(i as int),
                    decreases s.len() - i,
                {
                    let ghost before = v.deep_view();
                    v.push(s[i].clone());
                    assert(v.deep_view() =~= before.push(s[i as int]@));
                    i = i + 1;
                    assert(s.deep_view().take(i as int) =~= before.push(s[i - 1]@));
                }
                assert(s.deep_view().take(s.len() as int) =~= s.deep_view());
                SecHdr::StrTab(v, b.clone())
            },
            SecHdr::SymTab(s, b) => SecHdr::SymTab(s.clone(), b.clone()),
            SecHdr::Empty => SecHdr::Empty,
            SecHdr::Other(t, b) => SecHdr::Other(*t, b.clone()),
        }
    }
}

impl Default for SecHdr {
    fn default() -> (r: SecHdr)
        ensures
            r@ == SecView::Empty,
    {
        SecHdr::Empty
    }
}

/// How a symbol is bound.
#[derive(Clone, Copy, PartialEq, Eq, Structural, Debug)]
pub enum SymBind {
    Local,
    Global,
    Weak,
    Empty,
}

impl Default for SymBind {
    fn default() -> (r: SymBind)
        ensures
            r == SymBind::Empty,
    {
        SymBind::Empty
    }
}

/// The binding that the high nibble of a symbol's info byte names: 0 local,
/// 1 global, 2 weak; no other value names one.
pub open spec fn spec_binding(info: u8) -> Option<SymBind> {
    let b = info / 16;
    if b == 0 {
        Some(SymBind::Local)
    } else if b == 1 {
        Some(SymBind::Global)
    } else if b == 2 {
        Some(SymBind::Weak)
    } else {
        None
    }
}

/// The binding of a symbol with info byte `info` (see `spec_binding`).
pub fn binding(info: u8) -> (r: Option<SymBind>)
    ensures
        r == spec_binding(info),
{
    let b = info / 16;
    if b == 0 {
        Some(SymBind::Local)
    } else if b == 1 {
        Some(SymBind::Global)
    } else if b == 2 {
        Some(SymBind::Weak)
    } else {
        None
    }
}

/// A kernel of a cubin: its code section and what its other sections say
/// of it.
pub struct KernelSection {
    pub name: String,
    pub constant_sec: SecHdr,
    pub shared_sec: Option<SecHdr>,
    pub linkage: SymBind,
    pub instr_cnt: u32,
    pub bar_cnt: u32,
    pub reg_cnt: u32,
    pub shared_size: u32,
    pub param_cnt: usize,
    pub size: u64,
    /// The bytes of the kernel's code section.
    pub data: Vec<u8>,
    /// The kernel's parameter section, as `extract_param_sec` reads it.
    pub param_sec: Option<MutStrMap<ParamVal>>,
}

/// What a `KernelSection` holds.
pub struct KernelView {
    pub name: Seq<char>,
    pub constant_sec: SecView,
    pub shared_sec: Option<SecView>,
    pub linkage: SymBind,
    pub instr_cnt: u32,
    pub bar_cnt: u32,
    pub reg_cnt: u32,
    pub shared_size: u32,
    pub param_cnt: usize,
    pub size: u64,
    pub data: Seq<u8>,
    pub param_sec: Option<Map<Seq<char>, ParamSpec>>,
}

impl View for KernelSection {
    type V = KernelView;

    open spec fn view(&self) -> KernelView {
        KernelView {
            name: self.name@,
            constant_sec: self.constant_sec@,
            shared_sec: match self.shared_sec {
                Some(s) => Some(s@),
                None => None,
            },
            linkage: self.linkage,
            instr_cnt: self.instr_cnt,
            bar_cnt: self.bar_cnt,
            reg_cnt: self.reg_cnt,
            shared_size: self.shared_size,
            param_cnt: self.param_cnt,
            size: self.size,
            data: self.data@,
            param_sec: match self.param_sec {
                Some(p) => Some(p@.map_values(|v: ParamVal| v@)),
                None => None,
            },
        }
    }
}

impl Default for KernelSection {
    fn default() -> (r: KernelSection)
        ensures
            r@ == (KernelView {
                name: Seq::empty(),
                constant_sec: SecView::Empty,
                shared_sec: None,
                linkage: SymBind::Empty,
                instr_cnt: 0,
                bar_cnt: 0,
                reg_cnt: 0,
                shared_size: 0,
                param_cnt: 0,
                size: 0,
                data: Seq::empty(),
                param_sec: None,
            }),
    {
        KernelSection {
            name: String::new(),
            constant_sec: SecHdr::Empty,
            shared_sec: None,
            linkage: SymBind::Empty,
            instr_cnt: 0,
            bar_cnt: 0,
            reg_cnt: 0,
            shared_size: 0,
            param_cnt: 0,
            size: 0,
            data: Vec::new(),
            param_sec: None,
        }
    }
}

} // verus!
