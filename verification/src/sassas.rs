//! Preprocessing of assembly sources: constant mappings, register
//! mappings and the register ranges they name.
use vstd::prelude::*;

use crate::flags::{trim, trim_chars};
pub use crate::assembler::{AssembleError, assemble, try_assemble};
use crate::mut_map::{Duplicate, MutStrMap};
use crate::text::{
    dec_chars, dec_string, push_str, parse_u64_chars, spec_parse_u64, split_chars, split_on, split_str,
    string_from_chars,
};
use crate::flags::spec_build_flags;
use crate::sassas_grammar::{
    SassGrammar, asm_pattern, comm_pattern, ctrl_pattern, inst_pattern, pred_pattern, sass_pattern,
};
use crate::utils::{
    Re, re_captures_iter, re_compile, re_is_match, re_split, regex_is_match, regex_split,
    regex_valid, regex_captures, regex_match, regex_matches, regex_strip, spec_regex_match, spec_regex_matches,
    spec_regex_strip,
};

verus! {

/// A comment in a constant mapping: `#` or `//` to the end of the line.
pub const CONST_COMMENT_RE: &'static str = r"(?:#|//).*";

/// What a register mapping strips from each line as its comment.
pub const REG_COMMENT_RE: &'static str = r"?:#|//).*";

/// Some character that is not white space.
pub const NONBLANK_CHAR_RE: &'static str = r"\S";

/// A register range: a name, numbers and ranges between `<` and `>`, a
/// suffix, and an optional bank in brackets.
pub const REG_RANGE_RE: &'static str = r"^(\w+)<((?:\d+(?:\s*\-\s*\d+)?\s*\|?\s*)+)>(\w*)(?:\[([0-3])\])?$";

/// A register name with an optional bank in brackets.
pub const REG_NAME_RE: &'static str = r"^(\w+)(?:\[([0-3])\])?$";

/// What `usize::from_str` gives for `s`.
pub open spec fn spec_parse_usize(s: Seq<char>) -> Option<usize> {
    match spec_parse_u64(s) {
        Some(v) => if v <= usize::MAX {
            Some(v as usize)
        } else {
            None
        },
        None => None,
    }
}

/// Parses `s` as `usize::from_str` does.
pub fn parse_usize_chars(s: &Vec<char>) -> (r: Option<usize>)
    ensures
        r == spec_parse_usize(s@),
{
    match parse_u64_chars(s) {
        Some(v) => if v <= usize::MAX as u64 {
            Some(v as usize)
        } else {
            None
        },
        None => None,
    }
}

/// The range that `bounds` gives: one number `n` is `n..n+1`, two or more
/// `a`, `b`, ... are `a..b+1`; `None` where a number does not parse or the
/// end does not fit in `usize`.
pub open spec fn spec_get_range(bounds: Seq<Seq<char>>) -> Option<(usize, usize)> {
    if bounds.len() == 1 {
        match spec_parse_usize(bounds[0]) {
            Some(s) => if s < usize::MAX {
                Some((s, (s + 1) as usize))
            } else {
                None
            },
            None => None,
        }
    } else {
        match spec_parse_usize(bounds[0]) {
            None => None,
            Some(s) => match spec_parse_usize(bounds[1]) {
                Some(t) => if t < usize::MAX {
                    Some((s, (t + 1) as usize))
                } else {
                    None
                },
                None => None,
            },
        }
    }
}

/// The range that `bounds` gives, as `(start, end)` with `end` excluded (see
/// `spec_get_range`).
pub fn get_range(bounds: &Vec<Vec<char>>) -> (r: Option<(usize, usize)>)
    requires
        bounds.len() >= 1,
    ensures
        r == spec_get_range(bounds.deep_view()),
{
    let ghost b = bounds.deep_view();
    assert(b[0] == bounds[0]@);
    if bounds.len() == 1 {
        match parse_usize_chars(&bounds[0]) {
            Some(s) => if s < usize::MAX {
                Some((s, s + 1))
            } else {
                None
            },
            None => None,
        }
    } else {
        assert(b[1] == bounds[1]@);
        match parse_usize_chars(&bounds[0]) {
            None => None,
            Some(s) => match parse_usize_chars(&bounds[1]) {
                Some(t) => if t < usize::MAX {
                    Some((s, t + 1))
                } else {
                    None
                },
                None => None,
            },
        }
    }
}

/// The numbers `start`, `start + 1`, ... below `end`.
pub open spec fn range_seq(start: usize, end: usize) -> Seq<usize> {
    if end <= start {
        Seq::empty()
    } else {
        Seq::new((end - start) as nat, |i: int| (start + i) as usize)
    }
}

/// Appends `start..end` to `v`.
fn push_range(v: &mut Vec<usize>, start: usize, end: usize)
    ensures
        final(v)@ == old(v)@ + range_seq(start, end),
{
    let ghost v0 = v@;
    let mut k = start;
    while k < end
        invariant
            start <= k,
            start < end ==> k <= end,
            end <= start ==> k == start && v@ == v0,
            start < end ==> v@ == v0 + range_seq(start, k),
        decreases end - k,
    {
        let ghost before = v@;
        v.push(k);
        proof {
            if start < k {
                assert(range_seq(start, (k + 1) as usize) =~= range_seq(start, k).push(k));
            } else {
                assert(range_seq(start, (k + 1) as usize) =~= seq![k]);
                assert(range_seq(start, k) =~= Seq::<usize>::empty());
            }
        }
        k = k + 1;
    }
    proof {
        if end <= start {
            assert(range_seq(start, end) =~= Seq::<usize>::empty());
            assert(v@ =~= v0 + range_seq(start, end));
        } else if k == start {
            assert(range_seq(start, k) =~= Seq::<usize>::empty());
        }
    }
}

/// The constant mapping of the text `consttext`, line by line: a line's
/// comment is stripped; a line with no other character than white space is
/// passed over; else its first piece before `:`, trimmed, maps to the
/// second, trimmed. `None` where a pattern does not compile or a line has
/// no `:`.
pub open spec fn spec_constmap_lines(m: Map<Seq<char>, Seq<char>>, lines: Seq<Seq<char>>) -> Option<
    Map<Seq<char>, Seq<char>>,
>
    decreases lines.len(),
{
    if lines.len() == 0 {
        Some(m)
    } else {
        match spec_constmap_lines(m, lines.drop_last()) {
            None => None,
            Some(m1) => match spec_regex_strip(CONST_COMMENT_RE@, lines.last()) {
                None => None,
                Some(line) => match spec_regex_match(NONBLANK_CHAR_RE@, line) {
                    None => None,
                    Some(false) => Some(m1),
                    Some(true) => {
                        let kv = split_on(line, ':');
                        if kv.len() < 2 {
                            None
                        } else {
                            Some(m1.insert(trim(kv[0]), trim(kv[1])))
                        }
                    },
                },
            },
        }
    }
}

proof fn lemma_constmap_none_extends(
    m: Map<Seq<char>, Seq<char>>,
    lines: Seq<Seq<char>>,
    k: nat,
)
    requires
        k <= lines.len(),
        spec_constmap_lines(m, lines.take(k as int)) is None,
    ensures
        spec_constmap_lines(m, lines) is None,
    decreases lines.len() - k,
{
    if k < lines.len() {
        assert(lines.take(k + 1int).drop_last() =~= lines.take(k as int));
        lemma_constmap_none_extends(m, lines, (k + 1) as nat);
    } else {
        assert(lines.take(k as int) =~= lines);
    }
}

/// The texts of a map of strings.
pub open spec fn strings_view(m: Map<Seq<char>, String>) -> Map<Seq<char>, Seq<char>> {
    m.map_values(|v: String| v@)
}

/// Adds the constant mapping in `consttext` to `constmap` (see
/// `spec_constmap_lines`); gives back the empty text that replaces the
/// mapping in the source, `None` where the mapping cannot be read.
pub fn set_constmap(constmap: &mut MutStrMap<String>, consttext: &str) -> (r: Option<String>)
    ensures
        match r {
            Some(t) => t@ == Seq::<char>::empty() && spec_constmap_lines(
                strings_view(old(constmap)@),
                split_on(consttext@, '\n'),
            ) == Some(strings_view(final(constmap)@)),
            None => spec_constmap_lines(
                strings_view(old(constmap)@),
                split_on(consttext@, '\n'),
            ) is None,
        },
{
    let ghost m0 = strings_view(old(constmap)@);
    let lines = split_str(consttext, '\n');
    let ghost all = lines.deep_view();
    let mut i: usize = 0;
    assert(all.take(0) =~= Seq::<Seq<char>>::empty());
    while i < lines.len()
        invariant
            i <= lines@.len(),
            all == lines.deep_view(),
            all == split_on(consttext@, '\n'),
            m0 == strings_view(old(constmap)@),
            spec_constmap_lines(m0, all.take(i as int)) == Some(
                strings_view(constmap@),
            ),
        decreases lines@.len() - i,
    {
        assert(all.take(i + 1).drop_last() =~= all.take(i as int));
        assert(all.take(i + 1).last() == lines[i as int]@);
        let raw = string_from_chars(&lines[i]);
        assert(raw@ == all[i as int]);
        let line = match regex_strip(CONST_COMMENT_RE, raw.as_str()) {
            Some(l) => l,
            None => {
                proof {
                    lemma_constmap_none_extends(m0, all, (i + 1) as nat);
                }
                return None;
            },
        };
        match regex_match(NONBLANK_CHAR_RE, line.as_str()) {
            None => {
                proof {
                    lemma_constmap_none_extends(m0, all, (i + 1) as nat);
                }
                return None;
            },
            Some(false) => {},
            Some(true) => {
                let kv = split_str(line.as_str(), ':');
                if kv.len() < 2 {
                    proof {
                        lemma_constmap_none_extends(m0, all, (i + 1) as nat);
                        }
                    return None;
                }
                let k = trim_chars(&kv[0]);
                let v = trim_chars(&kv[1]);
                assert(kv.deep_view()[0] == kv[0]@ && kv.deep_view()[1] == kv[1]@);
                let ks = string_from_chars(&k);
                let vs = string_from_chars(&v);
                let ghost before = strings_view(constmap@);
                let ghost vv = vs@;
                constmap.insert(ks.as_str(), vs);
                assert(strings_view(constmap@) =~= before.insert(k@, vv));
            },
        }
        i = i + 1;
    }
    assert(all.take(lines@.len() as int) =~= all);
    Some(String::new())
}

/// The value that `constmap` gives `key`, or `key` itself where it has none.
pub fn constmap_lookup(constmap: &MutStrMap<String>, key: &str) -> (r: String)
    ensures
        r@ == (if constmap@.contains_key(key@) {
            constmap@[key@]@
        } else {
            key@
        }),
{
    match constmap.get(key) {
        Some(v) => v.clone(),
        None => key.to_string(),
    }
}

/// What a register is mapped to: the numbers it may be given (an automatic
/// mapping, written with `~`) or the register it is (`R` and a number).
pub enum RegVal {
    Nums(Vec<usize>),
    Name(String),
}

/// What a `RegVal` holds.
pub enum RegSpec {
    Nums(Seq<usize>),
    Name(Seq<char>),
}

impl View for RegVal {
    type V = RegSpec;

    open spec fn view(&self) -> RegSpec {
        match self {
            RegVal::Nums(v) => RegSpec::Nums(v@),
            RegVal::Name(s) => RegSpec::Name(s@),
        }
    }
}

impl RegVal {
    /// A copy with the same contents.
    pub fn copy(&self) -> (r: RegVal)
        ensures
            r@ == self@,
    {
        match self {
            RegVal::Nums(v) => RegVal::Nums(v.clone()),
            RegVal::Name(s) => RegVal::Name(s.clone()),
        }
    }
}

/// The register mapping of a source: each register name's value, the
/// register vectors (a name and the names that follow it in one vector), and
/// the banks requested for automatic registers.
pub struct RegMap {
    pub regs: MutStrMap<RegVal>,
    pub vectors: MutStrMap<Vec<String>>,
    pub regbank: MutStrMap<String>,
}

impl Duplicate for RegVal {
    fn duplicate(&self) -> (r: RegVal) {
        self.copy()
    }
}

impl RegMap {
    /// An empty mapping.
    pub fn new() -> (r: RegMap)
        ensures
            r.regs@ == Map::<Seq<char>, RegVal>::empty(),
            r.vectors@ == Map::<Seq<char>, Vec<String>>::empty(),
            r.regbank@ == Map::<Seq<char>, String>::empty(),
    {
        RegMap { regs: MutStrMap::new(), vectors: MutStrMap::new(), regbank: MutStrMap::new() }
    }

    /// A copy holding the same mapping.
    pub fn duplicate(&self) -> (r: RegMap)
        ensures
            reg_state(r, Map::empty()) == reg_state(*self, Map::empty()),
    {
        let regs = self.regs.duplicate();
        let vectors = self.vectors.duplicate();
        let regbank = self.regbank.duplicate();
        proof {
            assert(regs_view(regs@) =~= regs_view(self.regs@));
            assert forall|k: Seq<char>| #[trigger] vectors@.contains_key(k) implies vectors@[k].deep_view()
                == self.vectors@[k].deep_view() by {
                assert(vectors@[k].deep_view() =~= self.vectors@[k].deep_view());
            }
            assert(vectors_view(vectors@) =~= vectors_view(self.vectors@));
            assert(strings_view(regbank@) =~= strings_view(self.regbank@));
        }
        RegMap { regs, vectors, regbank }
    }
}

/// What a register mapping pass works on: the mapping, and the alias (the
/// name without its number) of each name of a range not yet given one.
pub struct RegState {
    pub regs: Map<Seq<char>, RegSpec>,
    pub vectors: Map<Seq<char>, Seq<Seq<char>>>,
    pub regbank: Map<Seq<char>, Seq<char>>,
    pub aliases: Map<Seq<char>, Seq<char>>,
}

/// What the registers of a mapping are mapped to.
pub open spec fn regs_view(m: Map<Seq<char>, RegVal>) -> Map<Seq<char>, RegSpec> {
    m.map_values(|v: RegVal| v@)
}

/// The names in each register vector.
pub open spec fn vectors_view(m: Map<Seq<char>, Vec<String>>) -> Map<Seq<char>, Seq<Seq<char>>> {
    m.map_values(|v: Vec<String>| v.deep_view())
}

/// Why a register mapping cannot be read.
#[derive(Clone, Copy, PartialEq, Eq, Structural, Debug)]
pub enum RegMapError {
    /// One of the patterns does not compile.
    BadPattern,
    /// A line without `:`, `~` or `=`.
    Malformed,
    /// A register number or range that does not parse.
    BadNumber,
    /// A register name that is neither a name nor a range of names.
    BadName,
    /// A capture group that the mapping reads did not take part in the match
    /// (a range or, in an automatic mapping, a name without a bank).
    MissingGroup,
    /// Fewer numbers than names, or more than one number for shared names.
    Mismatch,
    /// No numbers at all.
    NoNumbers,
    /// A register named twice.
    DefinedTwice,
}

/// `s` with each piece trimmed.
pub open spec fn trim_all(s: Seq<Seq<char>>) -> Seq<Seq<char>> {
    s.map_values(|p: Seq<char>| trim(p))
}

/// The numbers that the comma-separated pieces give: a number, or a range
/// `a-b` of them.
pub open spec fn spec_num_list(pieces: Seq<Seq<char>>) -> Option<Seq<usize>>
    decreases pieces.len(),
{
    if pieces.len() == 0 {
        Some(Seq::empty())
    } else {
        match spec_num_list(pieces.drop_last()) {
            None => None,
            Some(a) => match spec_get_range(trim_all(split_on(pieces.last(), '-'))) {
                None => None,
                Some((s, e)) => Some(a + range_seq(s, e)),
            },
        }
    }
}

/// The names gathered so far, with the banks and aliases they set.
pub struct NameAcc {
    pub names: Seq<Seq<char>>,
    pub regbank: Map<Seq<char>, Seq<char>>,
    pub aliases: Map<Seq<char>, Seq<char>>,
}

/// The names `name1`, a number of `vs`, `name2`: each gets the alias
/// `name1name2` where it has none, and, in an automatic mapping with a
/// bank, that bank.
pub open spec fn range_names(
    acc: NameAcc,
    auto: bool,
    name1: Seq<char>,
    name2: Seq<char>,
    bank: Option<Seq<char>>,
    vs: Seq<usize>,
) -> NameAcc
    decreases vs.len(),
{
    if vs.len() == 0 {
        acc
    } else {
        let a = range_names(acc, auto, name1, name2, bank, vs.drop_last());
        let r = name1 + dec_string(vs.last() as nat) + name2;
        NameAcc {
            names: a.names.push(r),
            regbank: if auto && bank is Some {
                a.regbank.insert(r, bank->0)
            } else {
                a.regbank
            },
            aliases: if a.aliases.contains_key(r) {
                a.aliases
            } else {
                a.aliases.insert(r, name1 + name2)
            },
        }
    }
}

/// The names of the ranges `groups` (each split at `-`).
pub open spec fn range_groups(
    acc: NameAcc,
    auto: bool,
    name1: Seq<char>,
    name2: Seq<char>,
    bank: Option<Seq<char>>,
    groups: Seq<Seq<char>>,
) -> Option<NameAcc>
    decreases groups.len(),
{
    if groups.len() == 0 {
        Some(acc)
    } else {
        match range_groups(acc, auto, name1, name2, bank, groups.drop_last()) {
            None => None,
            Some(a) => match spec_get_range(split_on(groups.last(), '-')) {
                None => None,
                Some((s, e)) => Some(range_names(a, auto, name1, name2, bank, range_seq(s, e))),
            },
        }
    }
}

/// One comma-separated name of a mapping line, trimmed: a range
/// `name1<ranges>name2[bank]`, or a name `name[bank]`.
pub open spec fn step_name(auto: bool, acc: NameAcc, raw: Seq<char>) -> Result<NameAcc, RegMapError> {
    let name = trim(raw);
    match spec_regex_match(REG_RANGE_RE@, name) {
        None => Err(RegMapError::BadPattern),
        Some(true) => {
            let ms = regex_captures(REG_RANGE_RE@, name);
            if ms.len() == 0 || ms[0].len() < 4 || ms[0][1] is None || ms[0][2] is None
                || ms[0][3] is None || (ms[0].len() > 4 && ms[0][4] is None) {
                Err(RegMapError::MissingGroup)
            } else {
                let bank = if ms[0].len() > 4 {
                    ms[0][4]
                } else {
                    None
                };
                match range_groups(
                    acc,
                    auto,
                    ms[0][1]->0,
                    ms[0][3]->0,
                    bank,
                    split_on(ms[0][2]->0, '|'),
                ) {
                    None => Err(RegMapError::BadNumber),
                    Some(a) => Ok(a),
                }
            }
        },
        Some(false) => match spec_regex_match(REG_NAME_RE@, name) {
            None => Err(RegMapError::BadPattern),
            Some(false) => Err(RegMapError::BadName),
            Some(true) => {
                let ms = regex_captures(REG_NAME_RE@, name);
                if ms.len() == 0 || ms[0].len() < 2 || ms[0][1] is None {
                    Err(RegMapError::MissingGroup)
                } else {
                    let n = ms[0][1]->0;
                    let names = acc.names.push(n);
                    if ms[0].len() <= 2 || !auto {
                        Ok(NameAcc { names, regbank: acc.regbank, aliases: acc.aliases })
                    } else if ms[0][2] is None {
                        Err(RegMapError::MissingGroup)
                    } else {
                        Ok(
                            NameAcc {
                                names,
                                regbank: acc.regbank.insert(n, ms[0][2]->0),
                                aliases: acc.aliases,
                            },
                        )
                    }
                }
            }
        },
    }
}

/// The names of the comma-separated pieces, in order.
pub open spec fn spec_name_list(auto: bool, acc: NameAcc, pieces: Seq<Seq<char>>) -> Result<
    NameAcc,
    RegMapError,
>
    decreases pieces.len(),
{
    if pieces.len() == 0 {
        Ok(acc)
    } else {
        match spec_name_list(auto, acc, pieces.drop_last()) {
            Err(e) => Err(e),
            Ok(a) => step_name(auto, a, pieces.last()),
        }
    }
}

/// Whether each number equals the next.
pub open spec fn all_equal(nums: Seq<usize>) -> bool {
    forall|i: int| 0 <= i < nums.len() - 1 ==> #[trigger] nums[i] == nums[i + 1]
}

/// The name `n` of a mapping line gets its value: the numbers in an
/// automatic mapping, else `R` and the first number; outside a shared
/// mapping it also heads a vector (of one name, or of three where its
/// number has bit 1 clear and two names follow), unless the numbers are all
/// equal and its own is odd, and its alias, if it has one not yet mapped,
/// takes its value and vector.
pub open spec fn assign_one(
    auto: bool,
    share: bool,
    asc: bool,
    nums: Seq<usize>,
    names: Seq<Seq<char>>,
    st: RegState,
    n: int,
) -> Result<RegState, RegMapError> {
    let nm = names[n];
    if st.regs.contains_key(nm) {
        Err(RegMapError::DefinedTwice)
    } else if auto {
        Ok(
            RegState {
                regs: st.regs.insert(nm, RegSpec::Nums(nums)),
                vectors: st.vectors,
                regbank: st.regbank,
                aliases: st.aliases,
            },
        )
    } else {
        let regs = st.regs.insert(nm, RegSpec::Name(seq!['R'] + dec_string(nums[0] as nat)));
        if share || (asc && nums[n] & 1 != 0) {
            Ok(RegState { regs, vectors: st.vectors, regbank: st.regbank, aliases: st.aliases })
        } else {
            let end = if nums[n] & 2 != 0 || n + 3 > names.len() {
                n + 1
            } else {
                n + 3
            };
            let vectors = st.vectors.insert(nm, names.subrange(n, end));
            if !st.aliases.contains_key(nm) || regs.contains_key(st.aliases[nm]) {
                Ok(RegState { regs, vectors, regbank: st.regbank, aliases: st.aliases })
            } else {
                let a = st.aliases[nm];
                Ok(
                    RegState {
                        regs: regs.insert(a, regs[nm]),
                        vectors: vectors.insert(a, vectors[nm]),
                        regbank: st.regbank,
                        aliases: st.aliases.remove(nm),
                    },
                )
            }
        }
    }
}

/// The first `n` names of a mapping line get their values, in order.
pub open spec fn spec_assign(
    auto: bool,
    share: bool,
    asc: bool,
    nums: Seq<usize>,
    names: Seq<Seq<char>>,
    st: RegState,
    n: nat,
) -> Result<RegState, RegMapError>
    decreases n,
{
    if n == 0 {
        Ok(st)
    } else {
        match spec_assign(auto, share, asc, nums, names, st, (n - 1) as nat) {
            Err(e) => Err(e),
            Ok(s) => assign_one(auto, share, asc, nums, names, s, n - 1),
        }
    }
}

/// Whether `c` separates the numbers of a mapping line from its names.
pub open spec fn is_map_sep(c: char) -> bool {
    c == ':' || c == '~' || c == '='
}

/// `s` with every separator turned into `:`.
pub open spec fn seps_to_colon(s: Seq<char>) -> Seq<char> {
    s.map_values(|c: char| if is_map_sep(c) { ':' } else { c })
}

/// One line of a register mapping, trimmed and stripped of its comment: a
/// line with no other character than white space is passed over; else the
/// numbers before the first separator are mapped to the names after it
/// (`~`: an automatic mapping, `=`: names sharing one register).
pub open spec fn spec_reg_line(st: RegState, raw: Seq<char>) -> Result<RegState, RegMapError> {
    match spec_regex_strip(REG_COMMENT_RE@, trim(raw)) {
        None => Err(RegMapError::BadPattern),
        Some(line) => match spec_regex_match(NONBLANK_CHAR_RE@, line) {
            None => Err(RegMapError::BadPattern),
            Some(false) => Ok(st),
            Some(true) => match (spec_regex_match("~"@, line), spec_regex_match("="@, line)) {
                (Some(auto), Some(share)) => {
                    let kv = split_on(seps_to_colon(line), ':');
                    if kv.len() < 2 {
                        Err(RegMapError::Malformed)
                    } else {
                        match spec_num_list(split_on(kv[0], ',')) {
                            None => Err(RegMapError::BadNumber),
                            Some(nums) => match spec_name_list(
                                auto,
                                NameAcc {
                                    names: Seq::empty(),
                                    regbank: st.regbank,
                                    aliases: st.aliases,
                                },
                                split_on(kv[1], ','),
                            ) {
                                Err(e) => Err(e),
                                Ok(acc) => if (!share && nums.len() < acc.names.len()) || (share
                                    && nums.len() > 1) {
                                    Err(RegMapError::Mismatch)
                                } else if nums.len() == 0 {
                                    Err(RegMapError::NoNumbers)
                                } else {
                                    spec_assign(
                                        auto,
                                        share,
                                        all_equal(nums),
                                        nums,
                                        acc.names,
                                        RegState {
                                            regs: st.regs,
                                            vectors: st.vectors,
                                            regbank: acc.regbank,
                                            aliases: acc.aliases,
                                        },
                                        acc.names.len(),
                                    )
                                },
                            },
                        }
                    }
                },
                _ => Err(RegMapError::BadPattern),
            },
        },
    }
}

/// The lines of a register mapping, in order.
pub open spec fn spec_reg_lines(st: RegState, lines: Seq<Seq<char>>) -> Result<RegState, RegMapError>
    decreases lines.len(),
{
    if lines.len() == 0 {
        Ok(st)
    } else {
        match spec_reg_lines(st, lines.drop_last()) {
            Err(e) => Err(e),
            Ok(s) => spec_reg_line(s, lines.last()),
        }
    }
}

/// The state of a register mapping pass: the mapping `m` and the aliases.
pub open spec fn reg_state(m: RegMap, aliases: Map<Seq<char>, String>) -> RegState {
    RegState {
        regs: regs_view(m.regs@),
        vectors: vectors_view(m.vectors@),
        regbank: strings_view(m.regbank@),
        aliases: strings_view(aliases),
    }
}

/// The numbers of the comma-separated pieces (see `spec_num_list`).
fn num_list(pieces: &Vec<Vec<char>>) -> (r: Option<Vec<usize>>)
    ensures
        match r {
            Some(v) => spec_num_list(pieces.deep_view()) == Some(v@),
            None => spec_num_list(pieces.deep_view()) is None,
        },
{
    let ghost all = pieces.deep_view();
    let mut out: Vec<usize> = Vec::new();
    let mut i: usize = 0;
    assert(all.take(0) =~= Seq::<Seq<char>>::empty());
    while i < pieces.len()
        invariant
            i <= pieces@.len(),
            all == pieces.deep_view(),
            spec_num_list(all.take(i as int)) == Some(out@),
        decreases pieces@.len() - i,
    {
        assert(all.take(i + 1).drop_last() =~= all.take(i as int));
        assert(all.take(i + 1).last() == pieces[i as int]@);
        let bounds = split_chars(&pieces[i], '-');
        let mut trimmed: Vec<Vec<char>> = Vec::new();
        let mut j: usize = 0;
        while j < bounds.len()
            invariant
                j <= bounds@.len(),
                trimmed.deep_view() == trim_all(bounds.deep_view()).take(j as int),
            decreases bounds@.len() - j,
        {
            let t = trim_chars(&bounds[j]);
            let ghost tv = t@;
            assert(t.deep_view() =~= t@);
            let ghost before = trimmed.deep_view();
            assert(bounds.deep_view()[j as int] == bounds[j as int]@);
            trimmed.push(t);
            assert(trimmed.deep_view() =~= before.push(tv));
            j = j + 1;
            assert(trim_all(bounds.deep_view()).take(j as int) =~= before.push(tv));
        }
        assert(trim_all(bounds.deep_view()).take(bounds@.len() as int) =~= trim_all(
            bounds.deep_view(),
        ));
        match get_range(&trimmed) {
            None => {
                proof {
                    lemma_num_list_none_extends(all, (i + 1) as nat);
                }
                return None;
            },
            Some((a, b)) => {
                push_range(&mut out, a, b);
            },
        }
        i = i + 1;
    }
    assert(all.take(pieces@.len() as int) =~= all);
    Some(out)
}

proof fn lemma_num_list_none_extends(pieces: Seq<Seq<char>>, k: nat)
    requires
        k <= pieces.len(),
        spec_num_list(pieces.take(k as int)) is None,
    ensures
        spec_num_list(pieces) is None,
    decreases pieces.len() - k,
{
    if k < pieces.len() {
        assert(pieces.take(k + 1int).drop_last() =~= pieces.take(k as int));
        lemma_num_list_none_extends(pieces, (k + 1) as nat);
    } else {
        assert(pieces.take(k as int) =~= pieces);
    }
}

/// `a`, `b` and `c` one after the other, as a string.
fn concat3(a: &Vec<char>, b: &Vec<char>, c: &Vec<char>) -> (r: String)
    ensures
        r@ == a@ + b@ + c@,
{
    let mut v: Vec<char> = Vec::new();
    let mut i: usize = 0;
    while i < a.len()
        invariant
            i <= a@.len(),
            v@ == a@.take(i as int),
        decreases a@.len() - i,
    {
        v.push(a[i]);
        i = i + 1;
        assert(v@ =~= a@.take(i as int));
    }
    let mut j: usize = 0;
    while j < b.len()
        invariant
            i == a@.len(),
            j <= b@.len(),
            v@ == a@.take(i as int) + b@.take(j as int),
        decreases b@.len() - j,
    {
        v.push(b[j]);
        j = j + 1;
        assert(v@ =~= a@.take(i as int) + b@.take(j as int));
    }
    let mut k: usize = 0;
    while k < c.len()
        invariant
            i == a@.len(),
            j == b@.len(),
            k <= c@.len(),
            v@ == a@.take(i as int) + b@.take(j as int) + c@.take(k as int),
        decreases c@.len() - k,
    {
        v.push(c[k]);
        k = k + 1;
        assert(v@ =~= a@.take(i as int) + b@.take(j as int) + c@.take(k as int));
    }
    assert(a@.take(i as int) =~= a@);
    assert(b@.take(j as int) =~= b@);
    assert(c@.take(k as int) =~= c@);
    string_from_chars(&v)
}

/// The names `name1`, a number of `start..end`, `name2` (see `range_names`).
fn range_names_exec(
    m: &mut RegMap,
    aliases: &mut MutStrMap<String>,
    names: &mut Vec<String>,
    auto: bool,
    name1: &Vec<char>,
    name2: &Vec<char>,
    bank: &Option<String>,
    start: usize,
    end: usize,
)
    ensures
        ({
            let a = range_names(
                NameAcc {
                    names: old(names).deep_view(),
                    regbank: strings_view(old(m).regbank@),
                    aliases: strings_view(old(aliases)@),
                },
                auto,
                name1@,
                name2@,
                match bank {
                    Some(b) => Some(b@),
                    None => None,
                },
                range_seq(start, end),
            );
            &&& a.names == final(names).deep_view()
            &&& a.regbank == strings_view(final(m).regbank@)
            &&& a.aliases == strings_view(final(aliases)@)
            &&& final(m).regs@ == old(m).regs@
            &&& final(m).vectors@ == old(m).vectors@
        }),
{
    let ghost bv = match bank {
        Some(b) => Some(b@),
        None => None,
    };
    let ghost acc0 = NameAcc {
        names: names.deep_view(),
        regbank: strings_view(m.regbank@),
        aliases: strings_view(aliases@),
    };
    let ghost regs0 = m.regs@;
    let ghost vectors0 = m.vectors@;
    let mut plain: Vec<char> = Vec::new();
    let mut i: usize = 0;
    while i < name1.len()
        invariant
            i <= name1@.len(),
            plain@ == name1@.take(i as int),
        decreases name1@.len() - i,
    {
        plain.push(name1[i]);
        i = i + 1;
        assert(plain@ =~= name1@.take(i as int));
    }
    let mut j: usize = 0;
    while j < name2.len()
        invariant
            i == name1@.len(),
            j <= name2@.len(),
            plain@ == name1@.take(i as int) + name2@.take(j as int),
        decreases name2@.len() - j,
    {
        plain.push(name2[j]);
        j = j + 1;
        assert(plain@ =~= name1@.take(i as int) + name2@.take(j as int));
    }
    assert(name1@.take(i as int) =~= name1@);
    assert(name2@.take(j as int) =~= name2@);
    let mut v = start;
    let ghost mut k: nat = 0;
    while v < end
        invariant
            start <= v,
            start < end ==> v <= end,
            end <= start ==> v == start,
            k == v - start,
            plain@ == name1@ + name2@,
            bv == match bank {
                Some(b) => Some(b@),
                None => None::<Seq<char>>,
            },
            range_names(acc0, auto, name1@, name2@, bv, range_seq(start, end).take(k as int))
                == (NameAcc {
                names: names.deep_view(),
                regbank: strings_view(m.regbank@),
                aliases: strings_view(aliases@),
            }),
            m.regs@ == regs0,
            m.vectors@ == vectors0,
        decreases end - v,
    {
        let ghost rs = range_seq(start, end);
        assert(rs.take(k + 1int).drop_last() =~= rs.take(k as int));
        assert(rs.take(k + 1int).last() == v);
        let digits = dec_chars(v as u64);
        let r = concat3(name1, &digits, name2);
        let ghost rv = r@;
        let ghost before_names = names.deep_view();
        let ghost before_bank = strings_view(m.regbank@);
        let ghost before_aliases = strings_view(aliases@);
        if !aliases.contains_key(r.as_str()) {
            let p = string_from_chars(&plain);
            aliases.insert(r.as_str(), p);
            assert(strings_view(aliases@) =~= before_aliases.insert(rv, name1@ + name2@));
        }
        if auto {
            match bank {
                Some(b) => {
                    m.regbank.insert(r.as_str(), b.clone());
                    assert(strings_view(m.regbank@) =~= before_bank.insert(rv, b@));
                },
                None => {},
            }
        }
        names.push(r);
        assert(names.deep_view() =~= before_names.push(rv));
        v = v + 1;
        proof {
            k = k + 1;
        }
    }
    proof {
        if end <= start {
            assert(range_seq(start, end).take(0) =~= range_seq(start, end));
        } else {
            assert(range_seq(start, end).take(k as int) =~= range_seq(start, end));
        }
    }
}

proof fn lemma_range_groups_none_extends(
    acc: NameAcc,
    auto: bool,
    name1: Seq<char>,
    name2: Seq<char>,
    bank: Option<Seq<char>>,
    groups: Seq<Seq<char>>,
    k: nat,
)
    requires
        k <= groups.len(),
        range_groups(acc, auto, name1, name2, bank, groups.take(k as int)) is None,
    ensures
        range_groups(acc, auto, name1, name2, bank, groups) is None,
    decreases groups.len() - k,
{
    if k < groups.len() {
        assert(groups.take(k + 1int).drop_last() =~= groups.take(k as int));
        lemma_range_groups_none_extends(acc, auto, name1, name2, bank, groups, (k + 1) as nat);
    } else {
        assert(groups.take(k as int) =~= groups);
    }
}

/// The names of the ranges `groups` (see `range_groups`); `false` where a
/// range does not parse.
fn range_groups_exec(
    m: &mut RegMap,
    aliases: &mut MutStrMap<String>,
    names: &mut Vec<String>,
    auto: bool,
    name1: &Vec<char>,
    name2: &Vec<char>,
    bank: &Option<String>,
    groups: &Vec<Vec<char>>,
) -> (ok: bool)
    ensures
        ({
            let r = range_groups(
                NameAcc {
                    names: old(names).deep_view(),
                    regbank: strings_view(old(m).regbank@),
                    aliases: strings_view(old(aliases)@),
                },
                auto,
                name1@,
                name2@,
                match bank {
                    Some(b) => Some(b@),
                    None => None,
                },
                groups.deep_view(),
            );
            &&& ok ==> r == Some(
                NameAcc {
                    names: final(names).deep_view(),
                    regbank: strings_view(final(m).regbank@),
                    aliases: strings_view(final(aliases)@),
                },
            )
            &&& !ok ==> r is None
            &&& final(m).regs@ == old(m).regs@
            &&& final(m).vectors@ == old(m).vectors@
        }),
{
    let ghost bv = match bank {
        Some(b) => Some(b@),
        None => None::<Seq<char>>,
    };
    let ghost acc0 = NameAcc {
        names: names.deep_view(),
        regbank: strings_view(m.regbank@),
        aliases: strings_view(aliases@),
    };
    let ghost regs0 = m.regs@;
    let ghost vectors0 = m.vectors@;
    let ghost all = groups.deep_view();
    let mut i: usize = 0;
    assert(all.take(0) =~= Seq::<Seq<char>>::empty());
    while i < groups.len()
        invariant
            i <= groups@.len(),
            all == groups.deep_view(),
            bv == match bank {
                Some(b) => Some(b@),
                None => None::<Seq<char>>,
            },
            range_groups(acc0, auto, name1@, name2@, bv, all.take(i as int)) == Some(
                NameAcc {
                    names: names.deep_view(),
                    regbank: strings_view(m.regbank@),
                    aliases: strings_view(aliases@),
                },
            ),
            m.regs@ == regs0,
            m.vectors@ == vectors0,
            regs0 == old(m).regs@,
            vectors0 == old(m).vectors@,
            acc0 == (NameAcc {
                names: old(names).deep_view(),
                regbank: strings_view(old(m).regbank@),
                aliases: strings_view(old(aliases)@),
            }),
        decreases groups@.len() - i,
    {
        assert(all.take(i + 1).drop_last() =~= all.take(i as int));
        assert(all.take(i + 1).last() == groups[i as int]@);
        let bounds = split_chars(&groups[i], '-');
        match get_range(&bounds) {
            None => {
                proof {
                    lemma_range_groups_none_extends(acc0, auto, name1@, name2@, bv, all, (i + 1) as nat);
                }
                return false;
            },
            Some((a, b)) => {
                range_names_exec(m, aliases, names, auto, name1, name2, bank, a, b);
            },
        }
        i = i + 1;
    }
    assert(all.take(groups@.len() as int) =~= all);
    true
}

/// The characters of a capture group that took part in the match.
fn group_text(g: &Option<String>) -> (r: Vec<char>)
    requires
        g is Some,
    ensures
        r@ == g->0@,
{
    match g {
        Some(s) => crate::text::chars_of(s.as_str()),
        None => Vec::new(),
    }
}

/// One name of a mapping line (see `step_name`).
fn step_name_exec(
    m: &mut RegMap,
    aliases: &mut MutStrMap<String>,
    names: &mut Vec<String>,
    auto: bool,
    raw: &Vec<char>,
) -> (r: Result<(), RegMapError>)
    ensures
        ({
            let want = step_name(
                auto,
                NameAcc {
                    names: old(names).deep_view(),
                    regbank: strings_view(old(m).regbank@),
                    aliases: strings_view(old(aliases)@),
                },
                raw@,
            );
            match r {
                Ok(()) => want == Ok::<NameAcc, RegMapError>(
                    NameAcc {
                        names: final(names).deep_view(),
                        regbank: strings_view(final(m).regbank@),
                        aliases: strings_view(final(aliases)@),
                    },
                ) && final(m).regs@ == old(m).regs@ && final(m).vectors@ == old(m).vectors@,
                Err(e) => want == Err::<NameAcc, RegMapError>(e),
            }
        }),
{
    let name_c = trim_chars(raw);
    let name = string_from_chars(&name_c);
    match regex_match(REG_RANGE_RE, name.as_str()) {
        None => Err(RegMapError::BadPattern),
        Some(true) => {
            let ms = match regex_matches(REG_RANGE_RE, name.as_str()) {
                Some(v) => v,
                None => return Err(RegMapError::BadPattern),
            };
            if ms.len() == 0 || ms[0].len() < 4 || ms[0][1].is_none() || ms[0][2].is_none()
                || ms[0][3].is_none() || (ms[0].len() > 4 && ms[0][4].is_none()) {
                return Err(RegMapError::MissingGroup);
            }
            let ghost caps = ms.deep_view()[0];
            assert(caps.len() == ms[0].len());
            assert(caps[1] == match ms[0][1] {
                Some(s) => Some(s@),
                None => None::<Seq<char>>,
            });
            assert(caps[2] == match ms[0][2] {
                Some(s) => Some(s@),
                None => None::<Seq<char>>,
            });
            assert(caps[3] == match ms[0][3] {
                Some(s) => Some(s@),
                None => None::<Seq<char>>,
            });
            let name1 = group_text(&ms[0][1]);
            let name2 = group_text(&ms[0][3]);
            let bank: Option<String> = if ms[0].len() > 4 {
                assert(caps[4] == match ms[0][4] {
                    Some(s) => Some(s@),
                    None => None::<Seq<char>>,
                });
                match &ms[0][4] {
                    Some(b) => Some(b.clone()),
                    None => None,
                }
            } else {
                None
            };
            let g2 = group_text(&ms[0][2]);
            let groups = split_chars(&g2, '|');
            if range_groups_exec(m, aliases, names, auto, &name1, &name2, &bank, &groups) {
                Ok(())
            } else {
                Err(RegMapError::BadNumber)
            }
        },
        Some(false) => match regex_match(REG_NAME_RE, name.as_str()) {
            None => Err(RegMapError::BadPattern),
            Some(false) => Err(RegMapError::BadName),
            Some(true) => {
                let ms = match regex_matches(REG_NAME_RE, name.as_str()) {
                    Some(v) => v,
                    None => return Err(RegMapError::BadPattern),
                };
                if ms.len() == 0 || ms[0].len() < 2 || ms[0][1].is_none() {
                    return Err(RegMapError::MissingGroup);
                }
                let ghost caps = ms.deep_view()[0];
                assert(caps.len() == ms[0].len());
                assert(caps[1] == match ms[0][1] {
                    Some(s) => Some(s@),
                    None => None::<Seq<char>>,
                });
                let n = group_text(&ms[0][1]);
                let ns = string_from_chars(&n);
                if ms[0].len() <= 2 || !auto {
                    let ghost before = names.deep_view();
                    names.push(ns);
                    assert(names.deep_view() =~= before.push(n@));
                    return Ok(());
                }
                assert(caps[2] == match ms[0][2] {
                    Some(s) => Some(s@),
                    None => None::<Seq<char>>,
                });
                match &ms[0][2] {
                    None => Err(RegMapError::MissingGroup),
                    Some(b) => {
                        let ghost before = names.deep_view();
                        let ghost before_bank = strings_view(m.regbank@);
                        m.regbank.insert(ns.as_str(), b.clone());
                        assert(strings_view(m.regbank@) =~= before_bank.insert(n@, b@));
                        names.push(ns);
                        assert(names.deep_view() =~= before.push(n@));
                        Ok(())
                    },
                }
            }
        },
    }
}

proof fn lemma_name_list_err_extends(auto: bool, acc: NameAcc, pieces: Seq<Seq<char>>, k: nat, e: RegMapError)
    requires
        k <= pieces.len(),
        spec_name_list(auto, acc, pieces.take(k as int)) == Err::<NameAcc, RegMapError>(e),
    ensures
        spec_name_list(auto, acc, pieces) == Err::<NameAcc, RegMapError>(e),
    decreases pieces.len() - k,
{
    if k < pieces.len() {
        assert(pieces.take(k + 1int).drop_last() =~= pieces.take(k as int));
        lemma_name_list_err_extends(auto, acc, pieces, (k + 1) as nat, e);
    } else {
        assert(pieces.take(k as int) =~= pieces);
    }
}

/// The names of the comma-separated pieces (see `spec_name_list`).
fn name_list(
    m: &mut RegMap,
    aliases: &mut MutStrMap<String>,
    auto: bool,
    pieces: &Vec<Vec<char>>,
) -> (r: Result<Vec<String>, RegMapError>)
    ensures
        ({
            let want = spec_name_list(
                auto,
                NameAcc {
                    names: Seq::empty(),
                    regbank: strings_view(old(m).regbank@),
                    aliases: strings_view(old(aliases)@),
                },
                pieces.deep_view(),
            );
            match r {
                Ok(v) => want == Ok::<NameAcc, RegMapError>(
                    NameAcc {
                        names: v.deep_view(),
                        regbank: strings_view(final(m).regbank@),
                        aliases: strings_view(final(aliases)@),
                    },
                ) && final(m).regs@ == old(m).regs@ && final(m).vectors@ == old(m).vectors@,
                Err(e) => want == Err::<NameAcc, RegMapError>(e),
            }
        }),
{
    let ghost acc0 = NameAcc {
        names: Seq::empty(),
        regbank: strings_view(m.regbank@),
        aliases: strings_view(aliases@),
    };
    let ghost all = pieces.deep_view();
    let mut names: Vec<String> = Vec::new();
    let mut i: usize = 0;
    assert(all.take(0) =~= Seq::<Seq<char>>::empty());
    assert(names.deep_view() =~= Seq::<Seq<char>>::empty());
    while i < pieces.len()
        invariant
            i <= pieces@.len(),
            all == pieces.deep_view(),
            acc0 == (NameAcc {
                names: Seq::empty(),
                regbank: strings_view(old(m).regbank@),
                aliases: strings_view(old(aliases)@),
            }),
            spec_name_list(auto, acc0, all.take(i as int)) == Ok::<NameAcc, RegMapError>(
                NameAcc {
                    names: names.deep_view(),
                    regbank: strings_view(m.regbank@),
                    aliases: strings_view(aliases@),
                },
            ),
            m.regs@ == old(m).regs@,
            m.vectors@ == old(m).vectors@,
        decreases pieces@.len() - i,
    {
        assert(all.take(i + 1).drop_last() =~= all.take(i as int));
        assert(all.take(i + 1).last() == pieces[i as int]@);
        match step_name_exec(m, aliases, &mut names, auto, &pieces[i]) {
            Ok(()) => {},
            Err(e) => {
                proof {
                    lemma_name_list_err_extends(auto, acc0, all, (i + 1) as nat, e);
                }
                return Err(e);
            },
        }
        i = i + 1;
    }
    assert(all.take(pieces@.len() as int) =~= all);
    Ok(names)
}

/// A copy of the numbers `v`.
fn copy_nums(v: &Vec<usize>) -> (r: Vec<usize>)
    ensures
        r@ == v@,
{
    let mut r: Vec<usize> = Vec::new();
    let mut i: usize = 0;
    while i < v.len()
        invariant
            i <= v@.len(),
            r@ == v@.take(i as int),
        decreases v@.len() - i,
    {
        r.push(v[i]);
        i = i + 1;
        assert(r@ =~= v@.take(i as int));
    }
    assert(v@.take(v@.len() as int) =~= v@);
    r
}

/// The names `names[from..to]`.
fn copy_names(names: &Vec<String>, from: usize, to: usize) -> (r: Vec<String>)
    requires
        from <= to <= names.len(),
    ensures
        r.deep_view() == names.deep_view().subrange(from as int, to as int),
{
    let mut r: Vec<String> = Vec::new();
    let mut i = from;
    while i < to
        invariant
            from <= i <= to <= names@.len(),
            r.deep_view() == names.deep_view().subrange(from as int, i as int),
        decreases to - i,
    {
        let ghost before = r.deep_view();
        let t = names[i].clone();
        r.push(t);
        assert(r.deep_view() =~= before.push(names[i as int]@));
        i = i + 1;
        assert(r.deep_view() =~= names.deep_view().subrange(from as int, i as int));
    }
    r
}

/// The text `R` and the number `n`.
fn reg_name(n: usize) -> (r: String)
    ensures
        r@ == seq!['R'] + dec_string(n as nat),
{
    let mut v: Vec<char> = Vec::new();
    v.push('R');
    let d = dec_chars(n as u64);
    let mut i: usize = 0;
    while i < d.len()
        invariant
            i <= d@.len(),
            v@ == seq!['R'] + d@.take(i as int),
        decreases d@.len() - i,
    {
        v.push(d[i]);
        i = i + 1;
        assert(v@ =~= seq!['R'] + d@.take(i as int));
    }
    assert(d@.take(d@.len() as int) =~= d@);
    string_from_chars(&v)
}

/// The name `n` of a mapping line gets its value (see `assign_one`).
fn assign_one_exec(
    m: &mut RegMap,
    aliases: &mut MutStrMap<String>,
    auto: bool,
    share: bool,
    asc: bool,
    nums: &Vec<usize>,
    names: &Vec<String>,
    n: usize,
) -> (r: Result<(), RegMapError>)
    requires
        n < names.len(),
        nums.len() >= 1,
        !auto && !share ==> nums.len() >= names.len(),
    ensures
        ({
            let want = assign_one(
                auto,
                share,
                asc,
                nums@,
                names.deep_view(),
                reg_state(*old(m), old(aliases)@),
                n as int,
            );
            match r {
                Ok(()) => want == Ok::<RegState, RegMapError>(reg_state(*final(m), final(aliases)@)),
                Err(e) => want == Err::<RegState, RegMapError>(e),
            }
        }),
{
    let ghost st = reg_state(*m, aliases@);
    let nm = &names[n];
    assert(names.deep_view()[n as int] == nm@);
    if m.regs.contains_key(nm.as_str()) {
        return Err(RegMapError::DefinedTwice);
    }
    if auto {
        let v = copy_nums(nums);
        let ghost before = regs_view(m.regs@);
        m.regs.insert(nm.as_str(), RegVal::Nums(v));
        assert(regs_view(m.regs@) =~= before.insert(nm@, RegSpec::Nums(nums@)));
        return Ok(());
    }
    let rn = reg_name(nums[0]);
    let ghost rv = RegSpec::Name(rn@);
    let ghost regs1 = regs_view(m.regs@).insert(nm@, rv);
    m.regs.insert(nm.as_str(), RegVal::Name(rn));
    assert(regs_view(m.regs@) =~= regs1);
    if share || (asc && nums[n] & 1 != 0) {
        return Ok(());
    }
    let end = if nums[n] & 2 != 0 || names.len() - n < 3 {
        n + 1
    } else {
        n + 3
    };
    let vec = copy_names(names, n, end);
    let ghost vecv = vec.deep_view();
    let ghost vectors1 = vectors_view(m.vectors@).insert(nm@, vecv);
    m.vectors.insert(nm.as_str(), vec);
    assert(vectors_view(m.vectors@) =~= vectors1);
    let alias = match aliases.get(nm.as_str()) {
        None => return Ok(()),
        Some(a) => a.clone(),
    };
    if m.regs.contains_key(alias.as_str()) {
        return Ok(());
    }
    let val = m.regs.index(nm.as_str()).copy();
    let ghost regs2 = regs1.insert(alias@, rv);
    m.regs.insert(alias.as_str(), val);
    assert(regs_view(m.regs@) =~= regs2);
    let vv = copy_strings(m.vectors.index(nm.as_str()));
    let ghost vectors2 = vectors1.insert(alias@, vecv);
    m.vectors.insert(alias.as_str(), vv);
    assert(vectors_view(m.vectors@) =~= vectors2);
    let ghost al = strings_view(aliases@);
    aliases.remove(nm.as_str());
    assert(strings_view(aliases@) =~= al.remove(nm@));
    Ok(())
}

/// A copy of the strings `v`.
fn copy_strings(v: &Vec<String>) -> (r: Vec<String>)
    ensures
        r.deep_view() == v.deep_view(),
{
    copy_names(v, 0, v.len())
}

proof fn lemma_assign_err_extends(
    auto: bool,
    share: bool,
    asc: bool,
    nums: Seq<usize>,
    names: Seq<Seq<char>>,
    st: RegState,
    k: nat,
    n: nat,
    e: RegMapError,
)
    requires
        k <= n,
        spec_assign(auto, share, asc, nums, names, st, k) == Err::<RegState, RegMapError>(e),
    ensures
        spec_assign(auto, share, asc, nums, names, st, n) == Err::<RegState, RegMapError>(e),
    decreases n - k,
{
    if k < n {
        lemma_assign_err_extends(auto, share, asc, nums, names, st, k, (n - 1) as nat, e);
    }
}

/// `s` with every separator of a mapping line turned into `:`.
fn seps_to_colon_exec(s: &Vec<char>) -> (r: Vec<char>)
    ensures
        r@ == seps_to_colon(s@),
{
    let mut r: Vec<char> = Vec::new();
    let mut i: usize = 0;
    while i < s.len()
        invariant
            i <= s@.len(),
            r@ == seps_to_colon(s@).take(i as int),
        decreases s@.len() - i,
    {
        let c = s[i];
        if c == ':' || c == '~' || c == '=' {
            r.push(':');
        } else {
            r.push(c);
        }
        i = i + 1;
        assert(r@ =~= seps_to_colon(s@).take(i as int));
    }
    assert(seps_to_colon(s@).take(s@.len() as int) =~= seps_to_colon(s@));
    r
}

/// Whether the numbers are all equal, found as the mapping finds it: the
/// first that differs from the next ends the search.
fn all_equal_exec(nums: &Vec<usize>) -> (b: bool)
    requires
        nums.len() >= 1,
    ensures
        b == all_equal(nums@),
{
    let mut i: usize = 0;
    while i < nums.len() - 1 && nums[i] == nums[i + 1]
        invariant
            i < nums@.len(),
            forall|j: int| 0 <= j < i ==> #[trigger] nums@[j] == nums@[j + 1],
        decreases nums@.len() - i,
    {
        i = i + 1;
    }
    i + 1 == nums.len()
}

/// One line of a register mapping (see `spec_reg_line`).
fn reg_line(m: &mut RegMap, aliases: &mut MutStrMap<String>, raw: &Vec<char>) -> (r: Result<(), RegMapError>)
    ensures
        ({
            let want = spec_reg_line(reg_state(*old(m), old(aliases)@), raw@);
            match r {
                Ok(()) => want == Ok::<RegState, RegMapError>(reg_state(*final(m), final(aliases)@)),
                Err(e) => want == Err::<RegState, RegMapError>(e),
            }
        }),
{
    let ghost st0 = reg_state(*m, aliases@);
    let line_c = trim_chars(raw);
    let line_s = string_from_chars(&line_c);
    let line = match regex_strip(REG_COMMENT_RE, line_s.as_str()) {
        Some(l) => l,
        None => return Err(RegMapError::BadPattern),
    };
    match regex_match(NONBLANK_CHAR_RE, line.as_str()) {
        None => return Err(RegMapError::BadPattern),
        Some(false) => return Ok(()),
        Some(true) => {},
    }
    let auto = match regex_match("~", line.as_str()) {
        Some(b) => b,
        None => return Err(RegMapError::BadPattern),
    };
    let share = match regex_match("=", line.as_str()) {
        Some(b) => b,
        None => return Err(RegMapError::BadPattern),
    };
    let lc = crate::text::chars_of(line.as_str());
    let mapped = seps_to_colon_exec(&lc);
    let kv = split_chars(&mapped, ':');
    if kv.len() < 2 {
        return Err(RegMapError::Malformed);
    }
    assert(kv.deep_view()[0] == kv[0]@ && kv.deep_view()[1] == kv[1]@);
    let num_pieces = split_chars(&kv[0], ',');
    let nums = match num_list(&num_pieces) {
        Some(v) => v,
        None => return Err(RegMapError::BadNumber),
    };
    let name_pieces = split_chars(&kv[1], ',');
    let names = match name_list(m, aliases, auto, &name_pieces) {
        Ok(v) => v,
        Err(e) => return Err(e),
    };
    if (!share && nums.len() < names.len()) || (share && nums.len() > 1) {
        return Err(RegMapError::Mismatch);
    }
    if nums.len() == 0 {
        return Err(RegMapError::NoNumbers);
    }
    let asc = all_equal_exec(&nums);
    let ghost st1 = reg_state(*m, aliases@);
    let ghost nv = names.deep_view();
    assert(spec_reg_line(st0, raw@) == spec_assign(
        auto,
        share,
        asc,
        nums@,
        nv,
        st1,
        names@.len() as nat,
    ));
    let mut n: usize = 0;
    while n < names.len()
        invariant
            st0 == reg_state(*old(m), old(aliases)@),
            spec_reg_line(st0, raw@) == spec_assign(
                auto,
                share,
                asc,
                nums@,
                nv,
                st1,
                names@.len() as nat,
            ),
            n <= names@.len(),
            nv == names.deep_view(),
            nums@.len() >= 1,
            !auto && !share ==> nums@.len() >= names@.len(),
            spec_assign(auto, share, asc, nums@, nv, st1, n as nat) == Ok::<RegState, RegMapError>(
                reg_state(*m, aliases@),
            ),
        decreases names@.len() - n,
    {
        match assign_one_exec(m, aliases, auto, share, asc, &nums, &names, n) {
            Ok(()) => {},
            Err(e) => {
                proof {
                    lemma_assign_err_extends(
                        auto,
                        share,
                        asc,
                        nums@,
                        nv,
                        st1,
                        (n + 1) as nat,
                        names@.len() as nat,
                        e,
                    );
                }
                return Err(e);
            },
        }
        n = n + 1;
    }
    Ok(())
}

proof fn lemma_reg_lines_err_extends(st: RegState, lines: Seq<Seq<char>>, k: nat, e: RegMapError)
    requires
        k <= lines.len(),
        spec_reg_lines(st, lines.take(k as int)) == Err::<RegState, RegMapError>(e),
    ensures
        spec_reg_lines(st, lines) == Err::<RegState, RegMapError>(e),
    decreases lines.len() - k,
{
    if k < lines.len() {
        assert(lines.take(k + 1int).drop_last() =~= lines.take(k as int));
        lemma_reg_lines_err_extends(st, lines, (k + 1) as nat, e);
    } else {
        assert(lines.take(k as int) =~= lines);
    }
}

/// Adds the register mapping in `regtext` to `regmap`, line by line (see
/// `spec_reg_lines`); gives back the text that stands for the mapping in the
/// source: nothing where the mapping is taken out of it, else the mapping.
/// Every failure comes back as an error.
pub fn read_register_map(regmap: &mut RegMap, regtext: &str, remove_regmap: bool) -> (r: Result<
    String,
    RegMapError,
>)
    ensures
        ({
            let want = spec_reg_lines(reg_state(*old(regmap), Map::empty()), split_on(regtext@, '\n'));
            match r {
                Ok(t) => want is Ok && want->Ok_0.regs == regs_view(final(regmap).regs@)
                    && want->Ok_0.vectors == vectors_view(final(regmap).vectors@)
                    && want->Ok_0.regbank == strings_view(final(regmap).regbank@) && t@ == (
                if remove_regmap {
                    Seq::<char>::empty()
                } else {
                    regtext@
                }),
                Err(e) => want == Err::<RegState, RegMapError>(e),
            }
        }),
{
    let ghost st0 = reg_state(*regmap, Map::empty());
    let lines = split_str(regtext, '\n');
    let ghost all = lines.deep_view();
    let mut aliases: MutStrMap<String> = MutStrMap::new();
    assert(strings_view(aliases@) =~= strings_view(Map::empty()));
    let mut i: usize = 0;
    assert(all.take(0) =~= Seq::<Seq<char>>::empty());
    while i < lines.len()
        invariant
            i <= lines@.len(),
            all == lines.deep_view(),
            all == split_on(regtext@, '\n'),
            st0 == reg_state(*old(regmap), Map::empty()),
            spec_reg_lines(st0, all.take(i as int)) == Ok::<RegState, RegMapError>(
                reg_state(*regmap, aliases@),
            ),
        decreases lines@.len() - i,
    {
        assert(all.take(i + 1).drop_last() =~= all.take(i as int));
        assert(all.take(i + 1).last() == lines[i as int]@);
        match reg_line(regmap, &mut aliases, &lines[i]) {
            Ok(()) => {},
            Err(e) => {
                proof {
                    lemma_reg_lines_err_extends(st0, all, (i + 1) as nat, e);
                }
                return Err(e);
            },
        }
        i = i + 1;
    }
    assert(all.take(lines@.len() as int) =~= all);
    if remove_regmap {
        Ok(String::new())
    } else {
        Ok(regtext.to_string())
    }
}

/// Whether reading a register mapping stops at a line it cannot take:
/// every failure but a number that does not parse.
pub open spec fn reg_map_aborts(r: Result<RegState, RegMapError>) -> bool {
    r matches Err(e) && e != RegMapError::BadNumber
}

/// Adds the register mapping in `regtext` to `regmap` (see
/// `read_register_map`); a number that does not parse is the one failure
/// given back, the others are ruled out by the caller. The comment pattern
/// `REG_COMMENT_RE` does not compile, so no text meets this precondition in
/// practice (every line stops on it); callers that cannot rule that out use
/// `read_register_map`, which gives back every failure.
pub fn set_register_map_(regmap: &mut RegMap, regtext: &str, remove_regmap: bool) -> (r: Result<
    String,
    RegMapError,
>)
    requires
        !reg_map_aborts(spec_reg_lines(reg_state(*old(regmap), Map::empty()), split_on(regtext@, '\n'))),
    ensures
        ({
            let want = spec_reg_lines(reg_state(*old(regmap), Map::empty()), split_on(regtext@, '\n'));
            match r {
                Ok(t) => want is Ok && want->Ok_0.regs == regs_view(final(regmap).regs@)
                    && want->Ok_0.vectors == vectors_view(final(regmap).vectors@)
                    && want->Ok_0.regbank == strings_view(final(regmap).regbank@) && t@ == (
                if remove_regmap {
                    Seq::<char>::empty()
                } else {
                    regtext@
                }),
                Err(e) => want == Err::<RegState, RegMapError>(e) && e == RegMapError::BadNumber,
            }
        }),
{
    read_register_map(regmap, regtext, remove_regmap)
}

/// Adds the register mapping in `regtext` to `regmap` (see
/// `read_register_map`), which the caller knows to be readable. As the
/// comment pattern `REG_COMMENT_RE` does not compile, no text is readable
/// in practice; callers that cannot rule that out use `read_register_map`.
pub fn set_register_map(regmap: &mut RegMap, regtext: &str, remove_regmap: bool) -> (r: String)
    requires
        spec_reg_lines(reg_state(*old(regmap), Map::empty()), split_on(regtext@, '\n')) is Ok,
    ensures
        ({
            let want = spec_reg_lines(reg_state(*old(regmap), Map::empty()), split_on(regtext@, '\n'));
            want->Ok_0.regs == regs_view(final(regmap).regs@)
                && want->Ok_0.vectors == vectors_view(final(regmap).vectors@)
                && want->Ok_0.regbank == strings_view(final(regmap).regbank@) && r@ == (
            if remove_regmap {
                Seq::<char>::empty()
            } else {
                regtext@
            })
        }),
{
    match set_register_map_(regmap, regtext, remove_regmap) {
        Ok(t) => t,
        Err(_) => String::new(),
    }
}

/// An `INCLUDE` tag: the file it names.
pub const INCLUDE_RE: &'static str = r#"^[\t ]*<INCLUDE\s+file="([^"]+)"\s*/?>\n?"#;

/// A `COMMENT` block.
pub const COMMENT_RE: &'static str = r#"^[\t ]*<COMMENT>.*?^\s*</COMMENT>\n?"#;

/// A `CONSTANT_MAPPING` block: its body.
pub const CONSTMAP_RE: &'static str = r"^[\t ]*<CONSTANT_MAPPING>(.*?)^\s*</CONSTANT_MAPPING>\n?";

/// A `REGISTER_MAPPING` block: its body.
pub const REGMAP_RE: &'static str = r"^[\t ]*<REGISTER_MAPPING>(.*?)^\s*</REGISTER_MAPPING>\n?";

/// A `SCHEDULE_BLOCK` block: its body.
pub const SCHEDULE_RE: &'static str = r"^[\t ]*<SCHEDULE_BLOCK>(.*?)^\s*</SCHEDULE_BLOCK>\n?";

/// A word, with an optional index in brackets: what a constant mapping
/// replaces.
pub const CONST_WORD_RE: &'static str = r"(\w+(?:\[\d+\])?)";

/// Why a source cannot be preprocessed.
#[derive(Clone, Copy, PartialEq, Eq, Structural, Debug)]
pub enum PreprocessError {
    /// The instruction grammar cannot be built.
    Grammar,
    /// One of the patterns does not compile.
    BadPattern,
    /// A capture group that the step reads did not take part in the match.
    MissingGroup,
    /// An included file that was not supplied.
    MissingInclude,
    /// A constant mapping that cannot be read.
    BadConstants,
    /// A register mapping that cannot be read.
    BadRegisterMap,
    /// A `SCHEDULE_BLOCK`: scheduling is not implemented.
    ScheduleUnimplemented,
}

/// Whether the instruction grammar builds (what `SassGrammar::new` needs).
pub open spec fn grammar_builds() -> bool {
    regex_valid(ctrl_pattern()) && regex_valid(pred_pattern()) && regex_valid(inst_pattern())
        && regex_valid(comm_pattern()) && regex_valid(asm_pattern()) && regex_valid(sass_pattern())
        && spec_build_flags() is Some
}

/// `pieces[0] reps[0] pieces[1] ... reps[n-1] pieces[n]`: a text with each
/// match replaced, from the pieces between the matches.
pub open spec fn interleave(pieces: Seq<Seq<char>>, reps: Seq<Seq<char>>) -> Seq<char>
    decreases reps.len(),
{
    if reps.len() == 0 {
        pieces[0]
    } else {
        interleave(pieces.drop_last(), reps.drop_last()) + reps.last() + pieces.last()
    }
}

/// `s`, `n` times.
pub open spec fn repeat(s: Seq<char>, n: nat) -> Seq<char>
    decreases n,
{
    if n == 0 {
        Seq::empty()
    } else {
        repeat(s, (n - 1) as nat) + s
    }
}

/// Whether every match has group 1.
pub open spec fn has_group1(caps: Seq<Seq<Option<Seq<char>>>>, i: int) -> bool {
    caps[i].len() > 1 && caps[i][1] is Some
}

/// What replaces each `INCLUDE` tag: the file's text and a newline.
pub open spec fn include_reps(inc: Map<Seq<char>, Seq<char>>, caps: Seq<Seq<Option<Seq<char>>>>) -> Result<
    Seq<Seq<char>>,
    PreprocessError,
>
    decreases caps.len(),
{
    if caps.len() == 0 {
        Ok(Seq::empty())
    } else {
        match include_reps(inc, caps.drop_last()) {
            Err(e) => Err(e),
            Ok(r) => if !has_group1(caps, caps.len() - 1) {
                Err(PreprocessError::MissingGroup)
            } else if !inc.contains_key(caps.last()[1]->0) {
                Err(PreprocessError::MissingInclude)
            } else {
                Ok(r.push(inc[caps.last()[1]->0] + seq!['\n']))
            },
        }
    }
}

/// The constant mappings of the blocks, in order.
pub open spec fn const_blocks(m: Map<Seq<char>, Seq<char>>, caps: Seq<Seq<Option<Seq<char>>>>) -> Result<
    Map<Seq<char>, Seq<char>>,
    PreprocessError,
>
    decreases caps.len(),
{
    if caps.len() == 0 {
        Ok(m)
    } else {
        match const_blocks(m, caps.drop_last()) {
            Err(e) => Err(e),
            Ok(m1) => if !has_group1(caps, caps.len() - 1) {
                Err(PreprocessError::MissingGroup)
            } else {
                match spec_constmap_lines(m1, split_on(caps.last()[1]->0, '\n')) {
                    None => Err(PreprocessError::BadConstants),
                    Some(m2) => Ok(m2),
                }
            },
        }
    }
}

/// Newlines, `n` of them.
pub open spec fn newlines(n: nat) -> Seq<Seq<char>> {
    Seq::new(n, |i: int| seq!['\n'])
}

/// What replaces each word: its constant, or itself.
pub open spec fn lookup_reps(cm: Map<Seq<char>, Seq<char>>, caps: Seq<Seq<Option<Seq<char>>>>) -> Option<
    Seq<Seq<char>>,
>
    decreases caps.len(),
{
    if caps.len() == 0 {
        Some(Seq::empty())
    } else {
        match lookup_reps(cm, caps.drop_last()) {
            None => None,
            Some(r) => if !has_group1(caps, caps.len() - 1) {
                None
            } else {
                let k = caps.last()[1]->0;
                Some(
                    r.push(
                        if cm.contains_key(k) {
                            cm[k]
                        } else {
                            k
                        },
                    ),
                )
            },
        }
    }
}

/// `st` with no aliases.
pub open spec fn fresh_aliases(st: RegState) -> RegState {
    RegState { regs: st.regs, vectors: st.vectors, regbank: st.regbank, aliases: Map::empty() }
}

/// The register mappings of the blocks, in order, and what replaces each:
/// nothing where the mappings are taken out, else the mapping; then a
/// newline.
pub open spec fn reg_blocks(st: RegState, remove: bool, caps: Seq<Seq<Option<Seq<char>>>>) -> Result<
    (RegState, Seq<Seq<char>>),
    PreprocessError,
>
    decreases caps.len(),
{
    if caps.len() == 0 {
        Ok((st, Seq::empty()))
    } else {
        match reg_blocks(st, remove, caps.drop_last()) {
            Err(e) => Err(e),
            Ok((s1, r)) => if !has_group1(caps, caps.len() - 1) {
                Err(PreprocessError::MissingGroup)
            } else {
                let body = caps.last()[1]->0;
                match spec_reg_lines(fresh_aliases(s1), split_on(body, '\n')) {
                    Err(_) => Err(PreprocessError::BadRegisterMap),
                    Ok(s2) => Ok(
                        (
                            fresh_aliases(s2),
                            r.push(
                                if remove {
                                    seq!['\n']
                                } else {
                                    body + seq!['\n']
                                },
                            ),
                        ),
                    ),
                }
            },
        }
    }
}

/// The source `file` with `INCLUDE` tags replaced by the files (from
/// `inc`), `COMMENT` blocks stripped, `CONSTANT_MAPPING` blocks read and
/// taken out, then, for each line of the result, the whole result with every
/// word replaced by its constant, each copy followed by a newline; then
/// `REGISTER_MAPPING` blocks read into the register mapping `st`. Gives the
/// text and the mapping; what is left is the `SCHEDULE_BLOCK`s.
pub open spec fn spec_preprocess_front(
    file: Seq<char>,
    inc: Map<Seq<char>, Seq<char>>,
    st: RegState,
    remove: bool,
) -> Result<(Seq<char>, RegState), PreprocessError> {
    if !regex_valid(INCLUDE_RE@) {
        Err(PreprocessError::BadPattern)
    } else {
        match include_reps(inc, regex_captures(INCLUDE_RE@, file)) {
            Err(e) => Err(e),
            Ok(ir) => {
                let f1 = interleave(regex_split(INCLUDE_RE@, file), ir);
                match spec_regex_strip(COMMENT_RE@, f1) {
                    None => Err(PreprocessError::BadPattern),
                    Some(f2) => if !regex_valid(CONSTMAP_RE@) {
                        Err(PreprocessError::BadPattern)
                    } else {
                        let cc = regex_captures(CONSTMAP_RE@, f2);
                        match const_blocks(Map::empty(), cc) {
                            Err(e) => Err(e),
                            Ok(cm) => {
                                let f3 = interleave(regex_split(CONSTMAP_RE@, f2), newlines(cc.len()));
                                if !regex_valid(CONST_WORD_RE@) {
                                    Err(PreprocessError::BadPattern)
                                } else {
                                    match lookup_reps(cm, regex_captures(CONST_WORD_RE@, f3)) {
                                        None => Err(PreprocessError::MissingGroup),
                                        Some(lr) => {
                                            let line = interleave(regex_split(CONST_WORD_RE@, f3), lr);
                                            let f4 = repeat(line + seq!['\n'], split_on(f3, '\n').len());
                                            if !regex_valid(REGMAP_RE@) {
                                                Err(PreprocessError::BadPattern)
                                            } else {
                                                match reg_blocks(
                                                    fresh_aliases(st),
                                                    remove,
                                                    regex_captures(REGMAP_RE@, f4),
                                                ) {
                                                    Err(e) => Err(e),
                                                    Ok((st2, rr)) => Ok(
                                                        (interleave(regex_split(REGMAP_RE@, f4), rr), st2),
                                                    ),
                                                }
                                            }
                                        },
                                    }
                                }
                            },
                        }
                    },
                }
            },
        }
    }
}

/// The preprocessed source (see `spec_preprocess_front`), where the
/// instruction grammar must build and a `SCHEDULE_BLOCK` is an error.
pub open spec fn spec_preprocess(
    file: Seq<char>,
    inc: Map<Seq<char>, Seq<char>>,
    st: RegState,
    remove: bool,
) -> Result<(Seq<char>, RegState), PreprocessError> {
    if !grammar_builds() {
        Err(PreprocessError::Grammar)
    } else {
        match spec_preprocess_front(file, inc, st, remove) {
            Err(e) => Err(e),
            Ok((f5, st2)) => if !regex_valid(SCHEDULE_RE@) {
                Err(PreprocessError::BadPattern)
            } else if regex_is_match(SCHEDULE_RE@, f5) {
                Err(PreprocessError::ScheduleUnimplemented)
            } else {
                Ok((f5, st2))
            },
        }
    }
}

/// The text `pieces[0] reps[0] pieces[1] ...` (see `interleave`).
pub(crate) fn splice(pieces: &Vec<String>, reps: &Vec<String>) -> (r: String)
    requires
        pieces.len() == reps.len() + 1,
    ensures
        r@ == interleave(pieces.deep_view(), reps.deep_view()),
{
    let ghost pv = pieces.deep_view();
    let ghost rv = reps.deep_view();
    let mut v: Vec<char> = Vec::new();
    push_str(&mut v, pieces[0].as_str());
    assert(pv.take(1).drop_last() =~= pv.take(0));
    assert(rv.take(0) =~= Seq::<Seq<char>>::empty());
    assert(v@ =~= interleave(pv.take(1), rv.take(0)));
    let mut i: usize = 0;
    while i < reps.len()
        invariant
            i <= reps@.len(),
            pieces@.len() == reps@.len() + 1,
            pv == pieces.deep_view(),
            rv == reps.deep_view(),
            v@ == interleave(pv.take(i + 1), rv.take(i as int)),
        decreases reps@.len() - i,
    {
        push_str(&mut v, reps[i].as_str());
        push_str(&mut v, pieces[i + 1].as_str());
        proof {
            assert(pv.take(i + 2).drop_last() =~= pv.take(i + 1));
            assert(rv.take(i + 1).drop_last() =~= rv.take(i as int));
            assert(pv.take(i + 2).last() == pieces[i + 1]@);
            assert(rv.take(i + 1).last() == reps[i as int]@);
        }
        i = i + 1;
    }
    assert(pv.take(reps@.len() + 1int) =~= pv);
    assert(rv.take(reps@.len() as int) =~= rv);
    string_from_chars(&v)
}

/// Group 1 of the match `c`, which must have it.
fn group1(c: &Vec<Option<String>>) -> (r: String)
    requires
        c.len() > 1,
        c[1] is Some,
    ensures
        r@ == c[1]->0@,
{
    match &c[1] {
        Some(s) => s.clone(),
        None => String::new(),
    }
}

/// What replaces each `INCLUDE` tag (see `include_reps`).
fn include_reps_exec(includes: &MutStrMap<String>, caps: &Vec<Vec<Option<String>>>) -> (r: Result<
    Vec<String>,
    PreprocessError,
>)
    ensures
        match r {
            Ok(v) => include_reps(strings_view(includes@), caps.deep_view()) == Ok::<
                Seq<Seq<char>>,
                PreprocessError,
            >(v.deep_view()),
            Err(e) => include_reps(strings_view(includes@), caps.deep_view()) == Err::<
                Seq<Seq<char>>,
                PreprocessError,
            >(e),
        },
        r matches Ok(v) ==> v.len() == caps.len(),
{
    let ghost inc = strings_view(includes@);
    let ghost all = caps.deep_view();
    let mut out: Vec<String> = Vec::new();
    let mut i: usize = 0;
    assert(all.take(0) =~= Seq::<Seq<Option<Seq<char>>>>::empty());
    assert(out.deep_view() =~= Seq::<Seq<char>>::empty());
    while i < caps.len()
        invariant
            i <= caps@.len(),
            out.len() == i,
            all == caps.deep_view(),
            inc == strings_view(includes@),
            include_reps(inc, all.take(i as int)) == Ok::<Seq<Seq<char>>, PreprocessError>(
                out.deep_view(),
            ),
        decreases caps@.len() - i,
    {
        let ghost pre = all.take(i + 1);
        assert(pre.drop_last() =~= all.take(i as int));
        assert(pre.last() == all[i as int]);
        assert(all[i as int].len() == caps[i as int].len());
        if caps[i].len() < 2 || caps[i][1].is_none() {
            proof {
                if caps[i as int].len() >= 2 {
                    assert(all[i as int][1] is None);
                }
                assert(!has_group1(pre, pre.len() - 1));
                lemma_include_reps_err_extends(inc, all, (i + 1) as nat, PreprocessError::MissingGroup);
            }
            return Err(PreprocessError::MissingGroup);
        }
        let name = group1(&caps[i]);
        assert(all[i as int][1] == Some(name@));
        match includes.get(name.as_str()) {
            None => {
                proof {
                    lemma_include_reps_err_extends(inc, all, (i + 1) as nat, PreprocessError::MissingInclude);
                }
                return Err(PreprocessError::MissingInclude);
            },
            Some(text) => {
                assert(inc[name@] == text@);
                let mut v: Vec<char> = Vec::new();
                push_str(&mut v, text.as_str());
                v.push('\n');
                let t = string_from_chars(&v);
                let ghost tv = t@;
                assert(tv =~= inc[name@] + seq!['\n']);
                let ghost before = out.deep_view();
                out.push(t);
                assert(out.deep_view() =~= before.push(tv));
            },
        }
        i = i + 1;
    }
    assert(all.take(caps@.len() as int) =~= all);
    Ok(out)
}

proof fn lemma_include_reps_err_extends(
    inc: Map<Seq<char>, Seq<char>>,
    caps: Seq<Seq<Option<Seq<char>>>>,
    k: nat,
    e: PreprocessError,
)
    requires
        k <= caps.len(),
        include_reps(inc, caps.take(k as int)) == Err::<Seq<Seq<char>>, PreprocessError>(e),
    ensures
        include_reps(inc, caps) == Err::<Seq<Seq<char>>, PreprocessError>(e),
    decreases caps.len() - k,
{
    if k < caps.len() {
        assert(caps.take(k + 1int).drop_last() =~= caps.take(k as int));
        lemma_include_reps_err_extends(inc, caps, (k + 1) as nat, e);
    } else {
        assert(caps.take(k as int) =~= caps);
    }
}

/// The source `file` with each `INCLUDE` tag replaced by the file it names
/// (its text from `includes`, then a newline).
pub fn include_step(file: &str, includes: &MutStrMap<String>) -> (r: Result<String, PreprocessError>)
    ensures
        ({
            let want = include_reps(strings_view(includes@), regex_captures(INCLUDE_RE@, file@));
            match r {
                Ok(t) => regex_valid(INCLUDE_RE@) && want is Ok && t@ == interleave(
                    regex_split(INCLUDE_RE@, file@),
                    want->Ok_0,
                ),
                Err(e) => if !regex_valid(INCLUDE_RE@) {
                    e == PreprocessError::BadPattern
                } else {
                    want == Err::<Seq<Seq<char>>, PreprocessError>(e)
                },
            }
        }),
        regex_valid(INCLUDE_RE@) && !regex_is_match(INCLUDE_RE@, file@) ==> (r matches Ok(t) && t@
            == file@),
{
    let re = match re_compile(INCLUDE_RE) {
        Some(r) => r,
        None => return Err(PreprocessError::BadPattern),
    };
    let caps = re_captures_iter(&re, file);
    let reps = match include_reps_exec(includes, &caps) {
        Ok(v) => v,
        Err(e) => return Err(e),
    };
    let pieces = re_split(&re, file);
    Ok(splice(&pieces, &reps))
}

proof fn lemma_const_blocks_err_extends(
    m: Map<Seq<char>, Seq<char>>,
    caps: Seq<Seq<Option<Seq<char>>>>,
    k: nat,
    e: PreprocessError,
)
    requires
        k <= caps.len(),
        const_blocks(m, caps.take(k as int)) == Err::<Map<Seq<char>, Seq<char>>, PreprocessError>(e),
    ensures
        const_blocks(m, caps) == Err::<Map<Seq<char>, Seq<char>>, PreprocessError>(e),
    decreases caps.len() - k,
{
    if k < caps.len() {
        assert(caps.take(k + 1int).drop_last() =~= caps.take(k as int));
        lemma_const_blocks_err_extends(m, caps, (k + 1) as nat, e);
    } else {
        assert(caps.take(k as int) =~= caps);
    }
}

/// Reads the `CONSTANT_MAPPING` blocks of `text` and takes them out (each
/// becomes a newline); gives the text and the constants.
pub fn const_step(text: &str) -> (r: Result<(String, MutStrMap<String>), PreprocessError>)
    ensures
        ({
            let cc = regex_captures(CONSTMAP_RE@, text@);
            let want = const_blocks(Map::empty(), cc);
            match r {
                Ok((t, cm)) => regex_valid(CONSTMAP_RE@) && want == Ok::<
                    Map<Seq<char>, Seq<char>>,
                    PreprocessError,
                >(strings_view(cm@)) && t@ == interleave(
                    regex_split(CONSTMAP_RE@, text@),
                    newlines(cc.len()),
                ),
                Err(e) => if !regex_valid(CONSTMAP_RE@) {
                    e == PreprocessError::BadPattern
                } else {
                    want == Err::<Map<Seq<char>, Seq<char>>, PreprocessError>(e)
                },
            }
        }),
        regex_valid(CONSTMAP_RE@) && !regex_is_match(CONSTMAP_RE@, text@) ==> (r matches Ok((t, cm))
            && t@ == text@ && cm@ == Map::<Seq<char>, String>::empty()),
{
    let re = match re_compile(CONSTMAP_RE) {
        Some(r) => r,
        None => return Err(PreprocessError::BadPattern),
    };
    let caps = re_captures_iter(&re, text);
    let ghost all = caps.deep_view();
    let mut constmap: MutStrMap<String> = MutStrMap::new();
    let mut reps: Vec<String> = Vec::new();
    let mut i: usize = 0;
    assert(all.take(0) =~= Seq::<Seq<Option<Seq<char>>>>::empty());
    assert(strings_view(constmap@) =~= Map::<Seq<char>, Seq<char>>::empty());
    while i < caps.len()
        invariant
            i <= caps@.len(),
            all == caps.deep_view(),
            all == regex_captures(CONSTMAP_RE@, text@),
            regex_valid(CONSTMAP_RE@),
            all.len() > 0 ==> regex_is_match(CONSTMAP_RE@, text@),
            const_blocks(Map::empty(), all.take(i as int)) == Ok::<
                Map<Seq<char>, Seq<char>>,
                PreprocessError,
            >(strings_view(constmap@)),
            reps.deep_view() == newlines(i as nat),
            reps.len() == i,
        decreases caps@.len() - i,
    {
        let ghost pre = all.take(i + 1);
        assert(pre.drop_last() =~= all.take(i as int));
        assert(pre.last() == all[i as int]);
        assert(all[i as int].len() == caps[i as int].len());
        if caps[i].len() < 2 || caps[i][1].is_none() {
            proof {
                if caps[i as int].len() >= 2 {
                    assert(all[i as int][1] is None);
                }
                lemma_const_blocks_err_extends(Map::empty(), all, (i + 1) as nat, PreprocessError::MissingGroup);
            }
            return Err(PreprocessError::MissingGroup);
        }
        let body = group1(&caps[i]);
        assert(all[i as int][1] == Some(body@));
        match set_constmap(&mut constmap, body.as_str()) {
            None => {
                proof {
                    lemma_const_blocks_err_extends(Map::empty(), all, (i + 1) as nat, PreprocessError::BadConstants);
                }
                return Err(PreprocessError::BadConstants);
            },
            Some(_) => {},
        }
        let mut nl: Vec<char> = Vec::new();
        nl.push('\n');
        let t = string_from_chars(&nl);
        let ghost tv = t@;
        assert(tv =~= seq!['\n']);
        let ghost before = reps.deep_view();
        reps.push(t);
        assert(reps.deep_view() =~= before.push(tv));
        i = i + 1;
        assert(reps.deep_view() =~= newlines(i as nat));
    }
    assert(all.take(caps@.len() as int) =~= all);
    if caps.len() == 0 {
        assert(strings_view(constmap@) == Map::<Seq<char>, Seq<char>>::empty());
        assert(constmap@.dom() =~= strings_view(constmap@).dom());
        assert(constmap@.dom() =~= Set::<Seq<char>>::empty());
        assert(constmap@ =~= Map::<Seq<char>, String>::empty());
    }
    let pieces = re_split(&re, text);
    let t = splice(&pieces, &reps);
    Ok((t, constmap))
}

proof fn lemma_lookup_reps_none_extends(cm: Map<Seq<char>, Seq<char>>, caps: Seq<Seq<Option<Seq<char>>>>, k: nat)
    requires
        k <= caps.len(),
        lookup_reps(cm, caps.take(k as int)) is None,
    ensures
        lookup_reps(cm, caps) is None,
    decreases caps.len() - k,
{
    if k < caps.len() {
        assert(caps.take(k + 1int).drop_last() =~= caps.take(k as int));
        lemma_lookup_reps_none_extends(cm, caps, (k + 1) as nat);
    } else {
        assert(caps.take(k as int) =~= caps);
    }
}

/// Replaces every word of `text` by its constant in `cm`, then repeats the
/// result, with a newline after each copy, once for each line of `text`.
pub fn lookup_step(text: &str, cm: &MutStrMap<String>) -> (r: Result<String, PreprocessError>)
    ensures
        ({
            let want = lookup_reps(strings_view(cm@), regex_captures(CONST_WORD_RE@, text@));
            match r {
                Ok(t) => regex_valid(CONST_WORD_RE@) && want is Some && t@ == repeat(
                    interleave(regex_split(CONST_WORD_RE@, text@), want->0) + seq!['\n'],
                    split_on(text@, '\n').len(),
                ),
                Err(e) => if !regex_valid(CONST_WORD_RE@) {
                    e == PreprocessError::BadPattern
                } else {
                    want is None && e == PreprocessError::MissingGroup
                },
            }
        }),
{
    let re = match re_compile(CONST_WORD_RE) {
        Some(r) => r,
        None => return Err(PreprocessError::BadPattern),
    };
    let caps = re_captures_iter(&re, text);
    let ghost all = caps.deep_view();
    let ghost cmv = strings_view(cm@);
    let mut reps: Vec<String> = Vec::new();
    let mut i: usize = 0;
    assert(all.take(0) =~= Seq::<Seq<Option<Seq<char>>>>::empty());
    assert(reps.deep_view() =~= Seq::<Seq<char>>::empty());
    while i < caps.len()
        invariant
            i <= caps@.len(),
            all == caps.deep_view(),
            all == regex_captures(CONST_WORD_RE@, text@),
            regex_valid(CONST_WORD_RE@),
            cmv == strings_view(cm@),
            reps.len() == i,
            lookup_reps(cmv, all.take(i as int)) == Some(reps.deep_view()),
        decreases caps@.len() - i,
    {
        let ghost pre = all.take(i + 1);
        assert(pre.drop_last() =~= all.take(i as int));
        assert(pre.last() == all[i as int]);
        assert(all[i as int].len() == caps[i as int].len());
        if caps[i].len() < 2 || caps[i][1].is_none() {
            proof {
                if caps[i as int].len() >= 2 {
                    assert(all[i as int][1] is None);
                }
                lemma_lookup_reps_none_extends(cmv, all, (i + 1) as nat);
            }
            return Err(PreprocessError::MissingGroup);
        }
        let key = group1(&caps[i]);
        assert(all[i as int][1] == Some(key@));
        let v = constmap_lookup(cm, key.as_str());
        let ghost vv = v@;
        let ghost before = reps.deep_view();
        reps.push(v);
        assert(reps.deep_view() =~= before.push(vv));
        i = i + 1;
    }
    assert(all.take(caps@.len() as int) =~= all);
    let pieces = re_split(&re, text);
    let line = splice(&pieces, &reps);
    let n = split_str(text, '\n').len();
    let mut v: Vec<char> = Vec::new();
    let mut k: usize = 0;
    while k < n
        invariant
            k <= n,
            v@ == repeat(line@ + seq!['\n'], k as nat),
        decreases n - k,
    {
        push_str(&mut v, line.as_str());
        v.push('\n');
        k = k + 1;
        assert(v@ =~= repeat(line@ + seq!['\n'], k as nat));
    }
    Ok(string_from_chars(&v))
}

proof fn lemma_fresh_reg_state(m: RegMap)
    ensures
        fresh_aliases(reg_state(m, Map::empty())) == reg_state(m, Map::empty()),
{
    assert(strings_view(Map::<Seq<char>, String>::empty()) =~= Map::<Seq<char>, Seq<char>>::empty());
}

proof fn lemma_reg_blocks_err_extends(
    st: RegState,
    remove: bool,
    caps: Seq<Seq<Option<Seq<char>>>>,
    k: nat,
    e: PreprocessError,
)
    requires
        k <= caps.len(),
        reg_blocks(st, remove, caps.take(k as int)) == Err::<(RegState, Seq<Seq<char>>), PreprocessError>(e),
    ensures
        reg_blocks(st, remove, caps) == Err::<(RegState, Seq<Seq<char>>), PreprocessError>(e),
    decreases caps.len() - k,
{
    if k < caps.len() {
        assert(caps.take(k + 1int).drop_last() =~= caps.take(k as int));
        lemma_reg_blocks_err_extends(st, remove, caps, (k + 1) as nat, e);
    } else {
        assert(caps.take(k as int) =~= caps);
    }
}

/// Reads the `REGISTER_MAPPING` blocks of `text` into `regmap`; each block
/// becomes nothing (where `remove_regmap`) or its mapping, then a newline.
pub fn reg_step(text: &str, regmap: &mut RegMap, remove_regmap: bool) -> (r: Result<String, PreprocessError>)
    ensures
        ({
            let want = reg_blocks(
                fresh_aliases(reg_state(*old(regmap), Map::empty())),
                remove_regmap,
                regex_captures(REGMAP_RE@, text@),
            );
            match r {
                Ok(t) => regex_valid(REGMAP_RE@) && want is Ok && want->Ok_0.0 == reg_state(
                    *final(regmap),
                    Map::empty(),
                ) && t@ == interleave(regex_split(REGMAP_RE@, text@), want->Ok_0.1),
                Err(e) => if !regex_valid(REGMAP_RE@) {
                    e == PreprocessError::BadPattern
                } else {
                    want == Err::<(RegState, Seq<Seq<char>>), PreprocessError>(e)
                },
            }
        }),
        regex_valid(REGMAP_RE@) && !regex_is_match(REGMAP_RE@, text@) ==> (r matches Ok(t) && t@
            == text@ && reg_state(*final(regmap), Map::empty()) == reg_state(*old(regmap), Map::empty())),
{
    let re = match re_compile(REGMAP_RE) {
        Some(r) => r,
        None => return Err(PreprocessError::BadPattern),
    };
    let caps = re_captures_iter(&re, text);
    let ghost all = caps.deep_view();
    let ghost st0 = fresh_aliases(reg_state(*regmap, Map::empty()));
    proof {
        lemma_fresh_reg_state(*regmap);
    }
    let mut reps: Vec<String> = Vec::new();
    let mut i: usize = 0;
    assert(all.take(0) =~= Seq::<Seq<Option<Seq<char>>>>::empty());
    assert(reps.deep_view() =~= Seq::<Seq<char>>::empty());
    while i < caps.len()
        invariant
            i <= caps@.len(),
            all == caps.deep_view(),
            all == regex_captures(REGMAP_RE@, text@),
            regex_valid(REGMAP_RE@),
            all.len() > 0 ==> regex_is_match(REGMAP_RE@, text@),
            st0 == fresh_aliases(reg_state(*old(regmap), Map::empty())),
            reps.len() == i,
            reg_blocks(st0, remove_regmap, all.take(i as int)) == Ok::<
                (RegState, Seq<Seq<char>>),
                PreprocessError,
            >((reg_state(*regmap, Map::empty()), reps.deep_view())),
        decreases caps@.len() - i,
    {
        let ghost pre = all.take(i + 1);
        assert(pre.drop_last() =~= all.take(i as int));
        assert(pre.last() == all[i as int]);
        assert(all[i as int].len() == caps[i as int].len());
        if caps[i].len() < 2 || caps[i][1].is_none() {
            proof {
                if caps[i as int].len() >= 2 {
                    assert(all[i as int][1] is None);
                }
                lemma_reg_blocks_err_extends(st0, remove_regmap, all, (i + 1) as nat, PreprocessError::MissingGroup);
            }
            return Err(PreprocessError::MissingGroup);
        }
        let body = group1(&caps[i]);
        assert(all[i as int][1] == Some(body@));
        proof {
            lemma_fresh_reg_state(*regmap);
        }
        let ghost m_before = *regmap;
        let mut trial = regmap.duplicate();
        if read_register_map(&mut trial, body.as_str(), remove_regmap).is_err() {
            proof {
                lemma_reg_blocks_err_extends(st0, remove_regmap, all, (i + 1) as nat, PreprocessError::BadRegisterMap);
            }
            return Err(PreprocessError::BadRegisterMap);
        }
        let t = set_register_map(regmap, body.as_str(), remove_regmap);
        proof {
            lemma_fresh_reg_state(*regmap);
            let s2 = spec_reg_lines(reg_state(m_before, Map::empty()), split_on(body@, '\n'))->Ok_0;
            assert(fresh_aliases(s2) == reg_state(*regmap, Map::empty()));
        }
        let mut v: Vec<char> = Vec::new();
        push_str(&mut v, t.as_str());
        v.push('\n');
        let rep = string_from_chars(&v);
        let ghost rv = rep@;
        assert(rv =~= (if remove_regmap {
            seq!['\n']
        } else {
            body@ + seq!['\n']
        }));
        let ghost before = reps.deep_view();
        reps.push(rep);
        assert(reps.deep_view() =~= before.push(rv));
        i = i + 1;
    }
    assert(all.take(caps@.len() as int) =~= all);
    proof {
        lemma_fresh_reg_state(*old(regmap));
    }
    let pieces = re_split(&re, text);
    Ok(splice(&pieces, &reps))
}

/// Preprocesses `file` up to its `SCHEDULE_BLOCK`s (see
/// `spec_preprocess_front`).
pub fn preprocess_front(
    file: &str,
    includes: &MutStrMap<String>,
    regmap: &mut RegMap,
    remove_regmap: bool,
) -> (r: Result<String, PreprocessError>)
    ensures
        ({
            let want = spec_preprocess_front(
                file@,
                strings_view(includes@),
                reg_state(*old(regmap), Map::empty()),
                remove_regmap,
            );
            match r {
                Ok(t) => want == Ok::<(Seq<char>, RegState), PreprocessError>(
                    (t@, reg_state(*final(regmap), Map::empty())),
                ),
                Err(e) => want == Err::<(Seq<char>, RegState), PreprocessError>(e),
            }
        }),
{
    let f1 = match include_step(file, includes) {
        Ok(t) => t,
        Err(e) => return Err(e),
    };
    let f2 = match regex_strip(COMMENT_RE, f1.as_str()) {
        Some(t) => t,
        None => return Err(PreprocessError::BadPattern),
    };
    let (f3, cm) = match const_step(f2.as_str()) {
        Ok(p) => p,
        Err(e) => return Err(e),
    };
    let f4 = match lookup_step(f3.as_str(), &cm) {
        Ok(t) => t,
        Err(e) => return Err(e),
    };
    reg_step(f4.as_str(), regmap, remove_regmap)
}

/// Preprocesses `file` (see `spec_preprocess`), every failure coming back
/// as an error.
fn preprocess_pass(
    file: &str,
    includes: &MutStrMap<String>,
    debug: bool,
    regmap: &mut RegMap,
    remove_regmap: bool,
) -> (r: Result<String, PreprocessError>)
    ensures
        ({
            let want = spec_preprocess(
                file@,
                strings_view(includes@),
                reg_state(*old(regmap), Map::empty()),
                remove_regmap,
            );
            match r {
                Ok(t) => want == Ok::<(Seq<char>, RegState), PreprocessError>(
                    (t@, reg_state(*final(regmap), Map::empty())),
                ),
                Err(e) => want == Err::<(Seq<char>, RegState), PreprocessError>(e),
            }
        }),
{
    if SassGrammar::new().is_none() {
        return Err(PreprocessError::Grammar);
    }
    let f5 = match preprocess_front(file, includes, regmap, remove_regmap) {
        Ok(t) => t,
        Err(e) => return Err(e),
    };
    let re = match re_compile(SCHEDULE_RE) {
        Some(r) => r,
        None => return Err(PreprocessError::BadPattern),
    };
    if re_is_match(&re, f5.as_str()) {
        return Err(PreprocessError::ScheduleUnimplemented);
    }
    Ok(f5)
}

/// Preprocesses the assembly source `file` (see `spec_preprocess`), which
/// the caller knows to preprocess: the files that its `INCLUDE` tags name
/// are given in `includes`; register mappings go into `regmap`, and are
/// taken out of the text where `remove_regmap`. `debug` is handed to the
/// scheduler.
pub fn preprocess(
    file: &str,
    includes: &MutStrMap<String>,
    debug: bool,
    regmap: &mut RegMap,
    remove_regmap: bool,
) -> (r: Result<String, PreprocessError>)
    requires
        spec_preprocess(file@, strings_view(includes@), reg_state(*old(regmap), Map::empty()), remove_regmap) is Ok,
    ensures
        r matches Ok(t) && spec_preprocess(
            file@,
            strings_view(includes@),
            reg_state(*old(regmap), Map::empty()),
            remove_regmap,
        ) == Ok::<(Seq<char>, RegState), PreprocessError>((t@, reg_state(*final(regmap), Map::empty()))),
{
    preprocess_pass(file, includes, debug, regmap, remove_regmap)
}

/// Preprocesses `file` as `preprocess` does where it can be preprocessed;
/// else gives back why not (see `spec_preprocess`) and leaves `regmap` as
/// it was.
pub fn try_preprocess(
    file: &str,
    includes: &MutStrMap<String>,
    debug: bool,
    regmap: &mut RegMap,
    remove_regmap: bool,
) -> (r: Result<String, PreprocessError>)
    ensures
        ({
            let want = spec_preprocess(
                file@,
                strings_view(includes@),
                reg_state(*old(regmap), Map::empty()),
                remove_regmap,
            );
            match r {
                Ok(t) => want == Ok::<(Seq<char>, RegState), PreprocessError>(
                    (t@, reg_state(*final(regmap), Map::empty())),
                ),
                Err(e) => want == Err::<(Seq<char>, RegState), PreprocessError>(e)
                    && reg_state(*final(regmap), Map::empty()) == reg_state(*old(regmap), Map::empty()),
            }
        }),
{
    let mut trial = regmap.duplicate();
    match preprocess_pass(file, includes, debug, &mut trial, remove_regmap) {
        Err(e) => Err(e),
        Ok(_) => preprocess(file, includes, debug, regmap, remove_regmap),
    }
}

/// Every register of `a` is in `b`, with the same value.
pub open spec fn regs_kept(a: Map<Seq<char>, RegSpec>, b: Map<Seq<char>, RegSpec>) -> bool {
    forall|k: Seq<char>| #[trigger] a.contains_key(k) ==> b.contains_key(k) && b[k] == a[k]
}

proof fn lemma_assign_keeps(
    auto: bool,
    share: bool,
    asc: bool,
    nums: Seq<usize>,
    names: Seq<Seq<char>>,
    st: RegState,
    n: nat,
)
    requires
        spec_assign(auto, share, asc, nums, names, st, n) is Ok,
    ensures
        regs_kept(st.regs, spec_assign(auto, share, asc, nums, names, st, n)->Ok_0.regs),
    decreases n,
{
    if n > 0 {
        lemma_assign_keeps(auto, share, asc, nums, names, st, (n - 1) as nat);
        let s = spec_assign(auto, share, asc, nums, names, st, (n - 1) as nat)->Ok_0;
        let s2 = assign_one(auto, share, asc, nums, names, s, n - 1)->Ok_0;
        assert(regs_kept(s.regs, s2.regs));
    }
}

proof fn lemma_reg_lines_keep(st: RegState, lines: Seq<Seq<char>>)
    requires
        spec_reg_lines(st, lines) is Ok,
    ensures
        regs_kept(st.regs, spec_reg_lines(st, lines)->Ok_0.regs),
    decreases lines.len(),
{
    if lines.len() > 0 {
        lemma_reg_lines_keep(st, lines.drop_last());
        let s = spec_reg_lines(st, lines.drop_last())->Ok_0;
        let raw = lines.last();
        let line = spec_regex_strip(REG_COMMENT_RE@, trim(raw))->0;
        if spec_regex_match(NONBLANK_CHAR_RE@, line) == Some(true) {
            let auto = spec_regex_match("~"@, line)->0;
            let share = spec_regex_match("="@, line)->0;
            let kv = split_on(seps_to_colon(line), ':');
            let nums = spec_num_list(split_on(kv[0], ','))->0;
            let acc = spec_name_list(
                auto,
                NameAcc { names: Seq::empty(), regbank: s.regbank, aliases: s.aliases },
                split_on(kv[1], ','),
            )->Ok_0;
            lemma_assign_keeps(
                auto,
                share,
                all_equal(nums),
                nums,
                acc.names,
                RegState { regs: s.regs, vectors: s.vectors, regbank: acc.regbank, aliases: acc.aliases },
                acc.names.len(),
            );
        }
    }
}

/// A register, once mapped, keeps its mapping: the lines of a register
/// mapping only add registers (a name mapped again is an error).
pub proof fn law_registers_kept(st: RegState, lines: Seq<Seq<char>>)
    requires
        spec_reg_lines(st, lines) is Ok,
    ensures
        regs_kept(st.regs, spec_reg_lines(st, lines)->Ok_0.regs),
{
    lemma_reg_lines_keep(st, lines);
}

/// The texts of group 1 of the matches; `None` if a match lacks it.
pub open spec fn group1s(caps: Seq<Seq<Option<Seq<char>>>>) -> Option<Seq<Seq<char>>>
    decreases caps.len(),
{
    if caps.len() == 0 {
        Some(Seq::empty())
    } else {
        match group1s(caps.drop_last()) {
            None => None,
            Some(a) => if !has_group1(caps, caps.len() - 1) {
                None
            } else {
                Some(a.push(caps.last()[1]->0))
            },
        }
    }
}

proof fn lemma_group1s_none_extends(caps: Seq<Seq<Option<Seq<char>>>>, k: nat)
    requires
        k <= caps.len(),
        group1s(caps.take(k as int)) is None,
    ensures
        group1s(caps) is None,
    decreases caps.len() - k,
{
    if k < caps.len() {
        assert(caps.take(k + 1int).drop_last() =~= caps.take(k as int));
        lemma_group1s_none_extends(caps, (k + 1) as nat);
    } else {
        assert(caps.take(k as int) =~= caps);
    }
}

/// Group 1 of each match (see `group1s`).
pub fn group1_texts(caps: &Vec<Vec<Option<String>>>) -> (r: Option<Vec<String>>)
    ensures
        match r {
            Some(v) => group1s(caps.deep_view()) == Some(v.deep_view()) && v.len() == caps.len(),
            None => group1s(caps.deep_view()) is None,
        },
{
    let ghost all = caps.deep_view();
    let mut out: Vec<String> = Vec::new();
    let mut i: usize = 0;
    assert(all.take(0) =~= Seq::<Seq<Option<Seq<char>>>>::empty());
    assert(out.deep_view() =~= Seq::<Seq<char>>::empty());
    while i < caps.len()
        invariant
            i <= caps@.len(),
            all == caps.deep_view(),
            out.len() == i,
            group1s(all.take(i as int)) == Some(out.deep_view()),
        decreases caps@.len() - i,
    {
        let ghost pre = all.take(i + 1);
        assert(pre.drop_last() =~= all.take(i as int));
        assert(pre.last() == all[i as int]);
        assert(all[i as int].len() == caps[i as int].len());
        if caps[i].len() < 2 || caps[i][1].is_none() {
            proof {
                if caps[i as int].len() >= 2 {
                    assert(all[i as int][1] is None);
                }
                lemma_group1s_none_extends(all, (i + 1) as nat);
            }
            return None;
        }
        let t = group1(&caps[i]);
        assert(all[i as int][1] == Some(t@));
        let ghost tv = t@;
        let ghost before = out.deep_view();
        out.push(t);
        assert(out.deep_view() =~= before.push(tv));
        i = i + 1;
    }
    assert(all.take(caps@.len() as int) =~= all);
    Some(out)
}

/// The files that the `INCLUDE` tags of `file` name, in order.
pub fn include_names(file: &str) -> (r: Result<Vec<String>, PreprocessError>)
    ensures
        match r {
            Ok(v) => regex_valid(INCLUDE_RE@) && group1s(regex_captures(INCLUDE_RE@, file@)) == Some(
                v.deep_view(),
            ),
            Err(e) => if !regex_valid(INCLUDE_RE@) {
                e == PreprocessError::BadPattern
            } else {
                e == PreprocessError::MissingGroup && group1s(regex_captures(INCLUDE_RE@, file@)) is None
            },
        },
{
    let re = match re_compile(INCLUDE_RE) {
        Some(r) => r,
        None => return Err(PreprocessError::BadPattern),
    };
    let caps = re_captures_iter(&re, file);
    match group1_texts(&caps) {
        Some(v) => Ok(v),
        None => Err(PreprocessError::MissingGroup),
    }
}

} // verus!
