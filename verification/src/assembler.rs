//! Assembling a source into a kernel: the source is preprocessed, every line
//! must be an instruction or a label, the kernel is closed with a branch to
//! itself and padded, each branch gets its target, and every instruction must
//! have an encoding. Emitting the code is not done, so assembling always ends
//! in an error: the first check that fails, or the step that is missing.
use vstd::prelude::*;

use crate::mut_map::MutStrMap;
use crate::sassas::{
    PreprocessError, RegMap, RegState, grammar_builds, interleave, reg_state, regs_view,
    spec_preprocess, splice, strings_view, try_preprocess, vectors_view,
};
use crate::sassas_grammar::{
    GrammarElt, SassGrammar, build_grammar, compiled_patterns, contains_str, grammar_rules_compile,
    grammar_text_pairs, hex, parse_instruct, spec_asm_line, text_map,
};
use crate::sval::KernelSection;
use crate::text::{
    hex_chars, hex_string, pad_left, parse_u64, push_chars, spec_parse_u64, split_on, split_str,
    string_from_chars,
};
use crate::utils::{
    re_captures_iter, re_compile, re_split, regex_captures, regex_is_match, regex_matches,
    regex_split, spec_regex_matches,
};

verus! {

/// A label: a name at the start of a line, then `:`.
pub const LABEL_RE: &'static str = r"^([a-zA-Z]\w*):";

/// The target of a branch: the name before the instruction's closing `;`.
pub const BRANCH_LABEL_RE: &'static str = r"(\w+);$";

/// Why a source cannot be assembled.
#[derive(Clone, Copy, PartialEq, Eq, Structural, Debug)]
pub enum AssembleError {
    /// The source does not preprocess.
    Preprocess(PreprocessError),
    /// The instruction grammar cannot be built.
    Grammar,
    /// An instruction line whose fields are missing or cannot be read.
    BadInstruction,
    /// A store (which writes no register) that sets a write barrier.
    StoreDependency,
    /// A line that is neither an instruction nor a label.
    BadlyFormed,
    /// One of the patterns does not compile.
    BadPattern,
    /// A capture group that is read did not take part in the match.
    MissingGroup,
    /// A branch whose target is not a label of the source.
    InvalidLabel,
    /// A branch offset that cannot be computed: its label is not a number
    /// where one is read, or the arithmetic leaves the range of `u64`.
    BadOffset,
    /// An opcode that the grammar does not have.
    UnknownOp,
    /// An instruction that no encoding of its opcode matches.
    Unencodable,
    /// Every check passed; emitting the code is not implemented.
    Unimplemented,
}

/// Opcodes that write no register: the stores and reductions.
pub open spec fn no_dest_ops() -> Seq<Seq<char>> {
    seq!["ST"@, "STG"@, "STS"@, "STL"@, "RED"@]
}

/// Branches whose target is given relative to the next instruction.
pub open spec fn rel_offset_ops() -> Seq<Seq<char>> {
    seq!["BRA"@, "SSY"@, "CAL"@, "PBK"@, "PCNT"@]
}

/// Branches: the relative ones and `JCAL`, whose target is absolute.
pub open spec fn jump_ops() -> Seq<Seq<char>> {
    rel_offset_ops().push("JCAL"@)
}

fn no_dest_list() -> (v: Vec<&'static str>)
    ensures
        v@.map_values(|x: &'static str| x@) == no_dest_ops(),
{
    let v = vec!["ST", "STG", "STS", "STL", "RED"];
    assert(v@.map_values(|x: &'static str| x@) =~= no_dest_ops());
    v
}

fn rel_offset_list() -> (v: Vec<&'static str>)
    ensures
        v@.map_values(|x: &'static str| x@) == rel_offset_ops(),
{
    let v = vec!["BRA", "SSY", "CAL", "PBK", "PCNT"];
    assert(v@.map_values(|x: &'static str| x@) =~= rel_offset_ops());
    v
}

fn jump_list() -> (v: Vec<&'static str>)
    ensures
        v@.map_values(|x: &'static str| x@) == jump_ops(),
{
    let v = vec!["BRA", "SSY", "CAL", "PBK", "PCNT", "JCAL"];
    assert(v@.map_values(|x: &'static str| x@) =~= jump_ops());
    v
}

/// An instruction of the kernel: its opcode and its text (both empty for a
/// slot that holds the control codes of the next three).
pub struct Slot {
    pub op: String,
    pub inst: String,
}

impl View for Slot {
    type V = (Seq<char>, Seq<char>);

    open spec fn view(&self) -> (Seq<char>, Seq<char>) {
        (self.op@, self.inst@)
    }
}

/// The opcodes and texts of a list of instructions.
pub open spec fn slots_view(v: Seq<Slot>) -> Seq<(Seq<char>, Seq<char>)> {
    v.map_values(|s: Slot| s@)
}

/// What reading the lines gives: each label with the position of the
/// instruction it stands before, and the position of each branch. No
/// instruction read is added to the kernel, so every position is that of
/// the first instruction after the leading slot.
pub struct Scan {
    pub labels: Map<Seq<char>, u64>,
    pub branches: Seq<usize>,
}

/// Nothing read yet.
pub open spec fn empty_scan() -> Scan {
    Scan { labels: Map::empty(), branches: Seq::empty() }
}

/// Reads one line: an instruction (a store must not set a write barrier; a
/// branch is recorded), or else a label; anything else is refused.
pub open spec fn scan_line(sc: Scan, line: Seq<char>) -> Result<Scan, AssembleError> {
    match spec_asm_line(line) {
        None => Err(AssembleError::BadInstruction),
        Some(Some(f)) => if no_dest_ops().contains(f.3) && f.6 & 0xe0u64 != 0xe0u64 {
            Err(AssembleError::StoreDependency)
        } else if jump_ops().contains(f.3) {
            Ok(Scan { labels: sc.labels, branches: sc.branches.push(1usize) })
        } else {
            Ok(sc)
        },
        Some(None) => match spec_regex_matches(LABEL_RE@, line) {
            None => Err(AssembleError::BadPattern),
            Some(ms) => if ms.len() == 0 {
                Err(AssembleError::BadlyFormed)
            } else if ms[0].len() > 1 && ms[0][1] is Some {
                Ok(Scan { labels: sc.labels.insert(ms[0][1]->0, 1u64), branches: sc.branches })
            } else {
                Err(AssembleError::MissingGroup)
            },
        },
    }
}

/// Reads the lines in order.
pub open spec fn scan_lines(sc: Scan, lines: Seq<Seq<char>>) -> Result<Scan, AssembleError>
    decreases lines.len(),
{
    if lines.len() == 0 {
        Ok(sc)
    } else {
        match scan_lines(sc, lines.drop_last()) {
            Err(e) => Err(e),
            Ok(s) => scan_line(s, lines.last()),
        }
    }
}

/// `0x` and the six lowercase hexadecimal digits of `v & 0xffffff`, as
/// `{:06x}` formats it.
pub open spec fn offset_hex(v: u64) -> Seq<char> {
    seq!['0', 'x'] + pad_left(hex_string((v & 0xffffffu64) as nat), 6, '0')
}

/// What replaces the label of one match in a branch: the byte offset of its
/// target, from the next instruction for a relative branch.
pub open spec fn target_text(labels: Map<Seq<char>, u64>, rel: bool, cap: Seq<Option<Seq<char>>>) -> Result<
    Seq<char>,
    AssembleError,
> {
    if !(cap.len() > 1 && cap[1] is Some) {
        Err(AssembleError::MissingGroup)
    } else {
        let name = cap[1]->0;
        if !labels.contains_key(name) {
            Err(AssembleError::InvalidLabel)
        } else if rel {
            match spec_parse_u64(name) {
                None => Err(AssembleError::BadOffset),
                Some(h) => if h >= labels[name] || labels[name] - h - 1 > 0x1fff_ffff_ffff_ffffu64 {
                    Err(AssembleError::BadOffset)
                } else {
                    Ok(offset_hex(((labels[name] - h - 1) * 8) as u64))
                },
            }
        } else if labels[name] > 0x1fff_ffff_ffff_ffffu64 {
            Err(AssembleError::BadOffset)
        } else {
            Ok(offset_hex((labels[name] * 8) as u64))
        }
    }
}

/// What replaces the label of each match, in order.
pub open spec fn target_texts(labels: Map<Seq<char>, u64>, rel: bool, caps: Seq<Seq<Option<Seq<char>>>>) -> Result<
    Seq<Seq<char>>,
    AssembleError,
>
    decreases caps.len(),
{
    if caps.len() == 0 {
        Ok(Seq::empty())
    } else {
        match target_texts(labels, rel, caps.drop_last()) {
            Err(e) => Err(e),
            Ok(r) => match target_text(labels, rel, caps.last()) {
                Err(e) => Err(e),
                Ok(t) => Ok(r.push(t)),
            },
        }
    }
}

/// The text of a branch with opcode `op` once its target label is replaced
/// by the target's offset; the first match must name a label.
pub open spec fn remap_text(labels: Map<Seq<char>, u64>, op: Seq<char>, text: Seq<char>) -> Result<
    Seq<char>,
    AssembleError,
> {
    match spec_regex_matches(BRANCH_LABEL_RE@, text) {
        None => Err(AssembleError::BadPattern),
        Some(ms) => if ms.len() == 0 {
            Err(AssembleError::InvalidLabel)
        } else if !(ms[0].len() > 1 && ms[0][1] is Some) {
            Err(AssembleError::MissingGroup)
        } else if !labels.contains_key(ms[0][1]->0) {
            Err(AssembleError::InvalidLabel)
        } else {
            match target_texts(labels, rel_offset_ops().contains(op), regex_captures(BRANCH_LABEL_RE@, text)) {
                Err(e) => Err(e),
                Ok(reps) => Ok(interleave(regex_split(BRANCH_LABEL_RE@, text), reps)),
            }
        },
    }
}

/// The text of the branch at position 1 (opcode `op`, text `text`) once
/// remapped once for each of the `n` branches recorded there.
pub open spec fn remap_times(labels: Map<Seq<char>, u64>, op: Seq<char>, text: Seq<char>, n: nat) -> Result<
    Seq<char>,
    AssembleError,
>
    decreases n,
{
    if n == 0 {
        Ok(text)
    } else {
        match remap_times(labels, op, text, (n - 1) as nat) {
            Err(e) => Err(e),
            Ok(t) => remap_text(labels, op, t),
        }
    }
}

/// The closing branch to itself.
pub open spec fn closing_bra() -> (Seq<char>, Seq<char>) {
    ("BRA"@, "BRA 0xfffff8"@)
}

/// The kernel's instructions: the leading slot, the closing branch (its
/// text `bra`), then `NOP`s to a multiple of eight, with a slot in front of
/// every fourth.
pub open spec fn kernel_instrs(bra: Seq<char>) -> Seq<(Seq<char>, Seq<char>)> {
    let e = (Seq::<char>::empty(), Seq::<char>::empty());
    let nop = ("NOP"@, "NOP"@);
    seq![e, ("BRA"@, bra), nop, nop, e, nop, nop, nop]
}

/// Whether some encoding of `op` in the grammar `g` matches `inst`: `None`
/// if one does, else why not.
pub open spec fn encode_error(g: Map<Seq<char>, Seq<Seq<char>>>, op: Seq<char>, inst: Seq<char>) -> Option<
    AssembleError,
> {
    if !g.contains_key(op) {
        Some(AssembleError::UnknownOp)
    } else if exists|j: int| 0 <= j < g[op].len() && regex_is_match(#[trigger] g[op][j], inst) {
        None
    } else {
        Some(AssembleError::Unencodable)
    }
}

/// The first of the first `k` instructions (but the slots, every fourth
/// from the first) that cannot be encoded.
pub open spec fn first_unencodable(g: Map<Seq<char>, Seq<Seq<char>>>, instrs: Seq<(Seq<char>, Seq<char>)>, k: nat) -> Option<
    AssembleError,
>
    decreases k,
{
    if k == 0 {
        None
    } else {
        match first_unencodable(g, instrs, (k - 1) as nat) {
            Some(e) => Some(e),
            None => if (k - 1) % 4 == 0 {
                None
            } else {
                encode_error(g, instrs[k - 1].0, instrs[k - 1].1)
            },
        }
    }
}

/// A register mapping with nothing in it.
pub open spec fn empty_reg_state() -> RegState {
    RegState { regs: Map::empty(), vectors: Map::empty(), regbank: Map::empty(), aliases: Map::empty() }
}

/// Why assembling the preprocessed text `text` fails: the grammar is
/// built; the lines are read; the closing branch is remapped once per
/// branch; every instruction is checked against the grammar.
pub open spec fn spec_assemble_text(text: Seq<char>) -> AssembleError {
    if !grammar_rules_compile() {
        AssembleError::Grammar
    } else {
        match scan_lines(empty_scan(), split_on(text, '\n')) {
            Err(e) => e,
            Ok(sc) => match remap_times(sc.labels, closing_bra().0, closing_bra().1, sc.branches.len()) {
                Err(e) => e,
                Ok(bra) => match first_unencodable(text_map(grammar_text_pairs()), kernel_instrs(bra), 8) {
                    Some(e) => e,
                    None => AssembleError::Unimplemented,
                },
            },
        }
    }
}

/// Why assembling `file` (the files its `INCLUDE` tags name given in `inc`)
/// fails: it is preprocessed with its register mappings taken out, then
/// assembled (see `spec_assemble_text`). Whether reuse flags are wanted
/// (`reuse`) changes none of these steps.
pub open spec fn spec_assemble_error(file: Seq<char>, inc: Map<Seq<char>, Seq<char>>, reuse: bool) -> AssembleError {
    match spec_preprocess(file, inc, empty_reg_state(), true) {
        Err(e) => AssembleError::Preprocess(e),
        Ok((text, _)) => spec_assemble_text(text),
    }
}

proof fn lemma_scan_err_extends(sc: Scan, lines: Seq<Seq<char>>, k: nat, e: AssembleError)
    requires
        k <= lines.len(),
        scan_lines(sc, lines.take(k as int)) == Err::<Scan, AssembleError>(e),
    ensures
        scan_lines(sc, lines) == Err::<Scan, AssembleError>(e),
    decreases lines.len() - k,
{
    if k < lines.len() {
        assert(lines.take(k + 1int).drop_last() =~= lines.take(k as int));
        lemma_scan_err_extends(sc, lines, (k + 1) as nat, e);
    } else {
        assert(lines.take(k as int) =~= lines);
    }
}

/// Group 1 of a match, which took part.
fn group1_text(c: &Vec<Option<String>>) -> (r: String)
    requires
        c.len() > 1,
        c[1] is Some,
    ensures
        r@ == c[1]->0@,
{
    match &c[1] {
        Some(s) => s.clone(),
        None => String::new(),
    }
}

/// Reads the lines of `text` (see `scan_lines`); `slots` is the kernel so
/// far, the leading slot alone.
pub fn scan_source(text: &str, sg: &SassGrammar, slots: &Vec<Slot>) -> (r: Result<
    (MutStrMap<u64>, Vec<usize>),
    AssembleError,
>)
    requires
        slots@.len() == 1,
    ensures
        match r {
            Ok((labels, branches)) => scan_lines(empty_scan(), split_on(text@, '\n')) == Ok::<
                Scan,
                AssembleError,
            >(Scan { labels: labels@, branches: branches@ }),
            Err(e) => scan_lines(empty_scan(), split_on(text@, '\n')) == Err::<Scan, AssembleError>(e),
        },
        r matches Ok((_, branches)) ==> forall|x: int| 0 <= x < branches@.len() ==> branches@[x] == 1,
{
    let lines = split_str(text, '\n');
    let ghost all = lines.deep_view();
    let no_dest = no_dest_list();
    let jumps = jump_list();
    let mut labels: MutStrMap<u64> = MutStrMap::new();
    let mut branches: Vec<usize> = Vec::new();
    let mut j: usize = 0;
    assert(all.take(0) =~= Seq::<Seq<char>>::empty());
    assert(labels@ == empty_scan().labels && branches@ == empty_scan().branches);
    while j < lines.len()
        invariant
            j <= lines@.len(),
            all == lines.deep_view(),
            all == split_on(text@, '\n'),
            slots@.len() == 1,
            no_dest@.map_values(|x: &'static str| x@) == no_dest_ops(),
            jumps@.map_values(|x: &'static str| x@) == jump_ops(),
            scan_lines(empty_scan(), all.take(j as int)) == Ok::<Scan, AssembleError>(
                Scan { labels: labels@, branches: branches@ },
            ),
            forall|x: int| 0 <= x < branches@.len() ==> branches@[x] == 1,
        decreases lines@.len() - j,
    {
        let ghost sc = Scan { labels: labels@, branches: branches@ };
        assert(all.take(j + 1).drop_last() =~= all.take(j as int));
        let line = string_from_chars(&lines[j]);
        assert(all.take(j + 1).last() == line@);
        match sg.process_asm_line(line.as_str(), j) {
            None => {
                proof {
                    lemma_scan_err_extends(empty_scan(), all, (j + 1) as nat, AssembleError::BadInstruction);
                }
                return Err(AssembleError::BadInstruction);
            },
            Some(Some(inst)) => {
                if contains_str(&no_dest, inst.op.as_str()) && inst.ctrl & 0xe0 != 0xe0 {
                    proof {
                        lemma_scan_err_extends(empty_scan(), all, (j + 1) as nat, AssembleError::StoreDependency);
                    }
                    return Err(AssembleError::StoreDependency);
                }
                if contains_str(&jumps, inst.op.as_str()) {
                    branches.push(slots.len());
                }
                assert(scan_line(sc, line@) == Ok::<Scan, AssembleError>(
                    Scan { labels: labels@, branches: branches@ },
                ));
            },
            Some(None) => {
                let ms = match regex_matches(LABEL_RE, line.as_str()) {
                    None => {
                        proof {
                            lemma_scan_err_extends(empty_scan(), all, (j + 1) as nat, AssembleError::BadPattern);
                        }
                        return Err(AssembleError::BadPattern);
                    },
                    Some(m) => m,
                };
                if ms.len() == 0 {
                    proof {
                        lemma_scan_err_extends(empty_scan(), all, (j + 1) as nat, AssembleError::BadlyFormed);
                    }
                    return Err(AssembleError::BadlyFormed);
                }
                if ms[0].len() < 2 || ms[0][1].is_none() {
                    proof {
                        if ms[0].len() >= 2 {
                            assert(ms.deep_view()[0][1] is None);
                        }
                        lemma_scan_err_extends(empty_scan(), all, (j + 1) as nat, AssembleError::MissingGroup);
                    }
                    return Err(AssembleError::MissingGroup);
                }
                let name = group1_text(&ms[0]);
                assert(ms.deep_view()[0][1] == Some(name@));
                labels.insert(name.as_str(), slots.len() as u64);
                assert(scan_line(sc, line@) == Ok::<Scan, AssembleError>(
                    Scan { labels: labels@, branches: branches@ },
                ));
            },
        }
        j = j + 1;
    }
    assert(all.take(lines@.len() as int) =~= all);
    Ok((labels, branches))
}

/// What replaces the label of one match (see `target_text`).
fn target_text_exec(labels: &MutStrMap<u64>, rel: bool, cap: &Vec<Option<String>>) -> (r: Result<
    String,
    AssembleError,
>)
    ensures
        match r {
            Ok(t) => target_text(labels@, rel, cap.deep_view()) == Ok::<Seq<char>, AssembleError>(t@),
            Err(e) => target_text(labels@, rel, cap.deep_view()) == Err::<Seq<char>, AssembleError>(e),
        },
{
    if cap.len() < 2 || cap[1].is_none() {
        proof {
            if cap.len() >= 2 {
                assert(cap.deep_view()[1] is None);
            }
        }
        return Err(AssembleError::MissingGroup);
    }
    let name = group1_text(cap);
    assert(cap.deep_view()[1] == Some(name@));
    let target: u64 = match labels.get(name.as_str()) {
        None => return Err(AssembleError::InvalidLabel),
        Some(t) => *t,
    };
    let bytes: u64 = if rel {
        if parse_u64(name.as_str()).is_none() {
            return Err(AssembleError::BadOffset);
        }
        let h = hex(name.as_str());
        if h >= target || target - h - 1 > 0x1fff_ffff_ffff_ffff {
            return Err(AssembleError::BadOffset);
        }
        (target - h - 1) * 8
    } else {
        if target > 0x1fff_ffff_ffff_ffff {
            return Err(AssembleError::BadOffset);
        }
        target * 8
    };
    let digits = hex_chars(bytes & 0xffffff, 6, '0');
    let mut v: Vec<char> = vec!['0', 'x'];
    push_chars(&mut v, &digits);
    assert(v@ =~= offset_hex(bytes));
    Ok(string_from_chars(&v))
}

/// The text of a branch once its target label is replaced (see
/// `remap_text`).
pub fn remap_branch(labels: &MutStrMap<u64>, op: &str, text: &str) -> (r: Result<String, AssembleError>)
    ensures
        match r {
            Ok(t) => remap_text(labels@, op@, text@) == Ok::<Seq<char>, AssembleError>(t@),
            Err(e) => remap_text(labels@, op@, text@) == Err::<Seq<char>, AssembleError>(e),
        },
{
    let ms = match regex_matches(BRANCH_LABEL_RE, text) {
        None => return Err(AssembleError::BadPattern),
        Some(m) => m,
    };
    if ms.len() == 0 {
        return Err(AssembleError::InvalidLabel);
    }
    if ms[0].len() < 2 || ms[0][1].is_none() {
        proof {
            if ms[0].len() >= 2 {
                assert(ms.deep_view()[0][1] is None);
            }
        }
        return Err(AssembleError::MissingGroup);
    }
    let first = group1_text(&ms[0]);
    assert(ms.deep_view()[0][1] == Some(first@));
    if !labels.contains_key(first.as_str()) {
        return Err(AssembleError::InvalidLabel);
    }
    let re = match re_compile(BRANCH_LABEL_RE) {
        None => return Err(AssembleError::BadPattern),
        Some(re) => re,
    };
    let rel = contains_str(&rel_offset_list(), op);
    let caps = re_captures_iter(&re, text);
    let ghost all = caps.deep_view();
    let mut reps: Vec<String> = Vec::new();
    let mut k: usize = 0;
    assert(all.take(0) =~= Seq::<Seq<Option<Seq<char>>>>::empty());
    assert(reps.deep_view() =~= Seq::<Seq<char>>::empty());
    assert(remap_text(labels@, op@, text@) == match target_texts(labels@, rel, all) {
        Err(e) => Err(e),
        Ok(reps) => Ok::<Seq<char>, AssembleError>(interleave(regex_split(BRANCH_LABEL_RE@, text@), reps)),
    });
    while k < caps.len()
        invariant
            k <= caps@.len(),
            all == caps.deep_view(),
            rel == rel_offset_ops().contains(op@),
            remap_text(labels@, op@, text@) == match target_texts(labels@, rel, all) {
                Err(e) => Err(e),
                Ok(reps) => Ok::<Seq<char>, AssembleError>(interleave(regex_split(BRANCH_LABEL_RE@, text@), reps)),
            },
            reps.len() == k,
            target_texts(labels@, rel, all.take(k as int)) == Ok::<Seq<Seq<char>>, AssembleError>(
                reps.deep_view(),
            ),
        decreases caps@.len() - k,
    {
        assert(all.take(k + 1).drop_last() =~= all.take(k as int));
        assert(all.take(k + 1).last() == caps[k as int].deep_view());
        match target_text_exec(labels, rel, &caps[k]) {
            Err(e) => {
                proof {
                    lemma_targets_err_extends(labels@, rel, all, (k + 1) as nat, e);
                }
                return Err(e);
            },
            Ok(t) => {
                let ghost before = reps.deep_view();
                reps.push(t);
                assert(reps.deep_view() =~= before.push(t@));
            },
        }
        k = k + 1;
    }
    assert(all.take(caps@.len() as int) =~= all);
    let pieces = re_split(&re, text);
    Ok(splice(&pieces, &reps))
}

proof fn lemma_targets_err_extends(
    labels: Map<Seq<char>, u64>,
    rel: bool,
    caps: Seq<Seq<Option<Seq<char>>>>,
    k: nat,
    e: AssembleError,
)
    requires
        k <= caps.len(),
        target_texts(labels, rel, caps.take(k as int)) == Err::<Seq<Seq<char>>, AssembleError>(e),
    ensures
        target_texts(labels, rel, caps) == Err::<Seq<Seq<char>>, AssembleError>(e),
    decreases caps.len() - k,
{
    if k < caps.len() {
        assert(caps.take(k + 1int).drop_last() =~= caps.take(k as int));
        lemma_targets_err_extends(labels, rel, caps, (k + 1) as nat, e);
    } else {
        assert(caps.take(k as int) =~= caps);
    }
}

/// Closes the kernel: the branch to itself, then `NOP`s to a multiple of
/// eight instructions, with a slot in front of every fourth.
fn close_kernel(slots: &mut Vec<Slot>)
    requires
        old(slots)@.len() == 1,
        old(slots)@[0]@ == (Seq::<char>::empty(), Seq::<char>::empty()),
    ensures
        slots_view(final(slots)@) == kernel_instrs(closing_bra().1),
{
    let ghost want = kernel_instrs(closing_bra().1);
    slots.push(Slot { op: "BRA".to_string(), inst: "BRA 0xfffff8".to_string() });
    assert(slots_view(slots@) =~= want.take(2));
    while slots.len() % 8 != 0
        invariant
            2 <= slots@.len() <= 8,
            want == kernel_instrs(closing_bra().1),
            slots_view(slots@) == want.take(slots@.len() as int),
        decreases 8 - slots@.len(),
    {
        if slots.len() % 4 == 0 {
            slots.push(Slot { op: String::new(), inst: String::new() });
            assert(slots_view(slots@) =~= want.take(slots@.len() as int));
        }
        slots.push(Slot { op: "NOP".to_string(), inst: "NOP".to_string() });
        assert(slots_view(slots@) =~= want.take(slots@.len() as int));
    }
    assert(want.take(8) =~= want);
}

proof fn lemma_remap_err_extends(
    labels: Map<Seq<char>, u64>,
    op: Seq<char>,
    text: Seq<char>,
    k: nat,
    n: nat,
    e: AssembleError,
)
    requires
        k <= n,
        remap_times(labels, op, text, k) == Err::<Seq<char>, AssembleError>(e),
    ensures
        remap_times(labels, op, text, n) == Err::<Seq<char>, AssembleError>(e),
    decreases n - k,
{
    if k < n {
        lemma_remap_err_extends(labels, op, text, k, (n - 1) as nat, e);
    }
}

proof fn lemma_unencodable_extends(
    g: Map<Seq<char>, Seq<Seq<char>>>,
    instrs: Seq<(Seq<char>, Seq<char>)>,
    k: nat,
    n: nat,
    e: AssembleError,
)
    requires
        k <= n,
        first_unencodable(g, instrs, k) == Some(e),
    ensures
        first_unencodable(g, instrs, n) == Some(e),
    decreases n - k,
{
    if k < n {
        lemma_unencodable_extends(g, instrs, k, (n - 1) as nat, e);
    }
}

/// The first instruction of `slots` (but the slots, every fourth) that no
/// encoding of the grammar matches (see `first_unencodable`).
fn check_encodings(grammar: &MutStrMap<Vec<GrammarElt>>, slots: &Vec<Slot>) -> (r: Option<AssembleError>)
    requires
        grammar@.map_values(|v: Vec<GrammarElt>| compiled_patterns(v@)) == text_map(grammar_text_pairs()),
    ensures
        r == first_unencodable(text_map(grammar_text_pairs()), slots_view(slots@), slots@.len() as nat),
{
    let ghost g = text_map(grammar_text_pairs());
    let ghost sv = slots_view(slots@);
    let mut i: usize = 0;
    while i < slots.len()
        invariant
            i <= slots@.len(),
            sv == slots_view(slots@),
            g == text_map(grammar_text_pairs()),
            grammar@.map_values(|v: Vec<GrammarElt>| compiled_patterns(v@)) == g,
            first_unencodable(g, sv, i as nat) is None,
        decreases slots@.len() - i,
    {
        if i % 4 != 0 {
            let op = slots[i].op.as_str();
            let inst = slots[i].inst.as_str();
            assert(sv[i as int] == (op@, inst@));
            let elts = match grammar.get(op) {
                None => {
                    assert(!g.contains_key(op@));
                    proof {
                        lemma_unencodable_extends(g, sv, (i + 1) as nat, slots@.len() as nat, AssembleError::UnknownOp);
                    }
                    return Some(AssembleError::UnknownOp);
                },
                Some(e) => e,
            };
            assert(g.contains_key(op@));
            assert(g[op@] == compiled_patterns(elts@));
            let ghost pats = compiled_patterns(elts@);
            let mut matched = false;
            let mut j: usize = 0;
            while j < elts.len() && !matched
                invariant
                    j <= elts@.len(),
                    pats == compiled_patterns(elts@),
                    matched ==> j > 0 && regex_is_match(pats[j - 1], inst@),
                    !matched ==> forall|k: int| 0 <= k < j ==> !regex_is_match(#[trigger] pats[k], inst@),
                decreases elts@.len() - j,
            {
                let mut cap_data: MutStrMap<String> = MutStrMap::new();
                if parse_instruct(inst, &elts[j].rule, &mut cap_data) {
                    matched = true;
                }
                assert(pats[j as int] == elts@[j as int].rule.pattern());
                j = j + 1;
            }
            if !matched {
                assert(!(exists|k: int| 0 <= k < g[op@].len() && regex_is_match(#[trigger] g[op@][k], inst@)));
                proof {
                    lemma_unencodable_extends(g, sv, (i + 1) as nat, slots@.len() as nat, AssembleError::Unencodable);
                }
                return Some(AssembleError::Unencodable);
            }
            assert(regex_is_match(g[op@][j - 1], inst@));
        }
        i = i + 1;
    }
    None
}

/// Gives the closing branch (at position 1 of `slots`) its target once
/// for each branch recorded (see `remap_times`); `None` where each remap
/// succeeds, else why one fails.
fn remap_branches(labels: &MutStrMap<u64>, branches: &Vec<usize>, slots: &mut Vec<Slot>) -> (r: Option<AssembleError>)
    requires
        forall|x: int| 0 <= x < branches@.len() ==> branches@[x] == 1,
        slots_view(old(slots)@) == kernel_instrs(closing_bra().1),
    ensures
        match remap_times(labels@, closing_bra().0, closing_bra().1, branches@.len()) {
            Ok(t) => r is None && slots_view(final(slots)@) == kernel_instrs(t),
            Err(e) => r == Some(e),
        },
{
    let ghost lab = labels@;
    let ghost n = branches@.len();
    assert(slots_view(slots@).len() == slots@.len());
    assert(slots@.len() == 8);
    assert(slots@[1]@ == slots_view(slots@)[1]);
    let mut b: usize = 0;
    while b < branches.len()
        invariant
            b <= branches@.len(),
            n == branches@.len(),
            lab == labels@,
            forall|x: int| 0 <= x < branches@.len() ==> branches@[x] == 1,
            slots@.len() == 8,
            slots@[1].op@ == closing_bra().0,
            slots_view(slots@) == kernel_instrs(slots@[1].inst@),
            remap_times(lab, closing_bra().0, closing_bra().1, b as nat) == Ok::<Seq<char>, AssembleError>(
                slots@[1].inst@,
            ),
        decreases branches@.len() - b,
    {
        let i = branches[b];
        let inst = slots[i].inst.clone();
        let op = slots[i].op.clone();
        match remap_branch(labels, op.as_str(), inst.as_str()) {
            Err(e) => {
                proof {
                    lemma_remap_err_extends(lab, closing_bra().0, closing_bra().1, (b + 1) as nat, n, e);
                }
                return Some(e);
            },
            Ok(t) => {
                slots.set(i, Slot { op, inst: t });
                assert(slots_view(slots@) =~= kernel_instrs(slots@[1].inst@));
            },
        }
        b = b + 1;
    }
    None
}

/// Whether assembling stops the program where the checks reach `e`: a
/// store that sets a write barrier, or a branch to a label that no line
/// defines.
pub open spec fn assemble_aborts(e: AssembleError) -> bool {
    e == AssembleError::StoreDependency || e == AssembleError::InvalidLabel
}

/// Why assembling `file` fails (see `spec_assemble_error`), whatever the
/// reason.
fn assemble_pass(file: &str, includes: &MutStrMap<String>, reuse: bool) -> (r: AssembleError)
    ensures
        r == spec_assemble_error(file@, strings_view(includes@), reuse),
{
    let mut regmap = RegMap::new();
    proof {
        assert(regs_view(regmap.regs@) =~= Map::empty());
        assert(vectors_view(regmap.vectors@) =~= Map::empty());
        assert(strings_view(regmap.regbank@) =~= Map::empty());
        assert(strings_view(Map::<Seq<char>, String>::empty()) =~= Map::empty());
        assert(reg_state(regmap, Map::empty()) == empty_reg_state());
    }
    let text = match try_preprocess(file, includes, false, &mut regmap, true) {
        Ok(t) => t,
        Err(e) => return AssembleError::Preprocess(e),
    };
    assemble_text(text.as_str())
}

/// Assembles the source `file` into a kernel; the files that its `INCLUDE`
/// tags name are given in `includes`, and `reuse` asks for register reuse
/// flags. The caller knows that no store of the source sets a write barrier
/// and that no branch targets a missing label (see `assemble_aborts`).
/// Emitting the code is not implemented, so this always gives back an
/// error: the first check that fails (see `spec_assemble_error`).
pub fn assemble(file: &str, includes: &MutStrMap<String>, reuse: bool) -> (r: Result<
    KernelSection,
    AssembleError,
>)
    requires
        !assemble_aborts(spec_assemble_error(file@, strings_view(includes@), reuse)),
    ensures
        r matches Err(e) && e == spec_assemble_error(file@, strings_view(includes@), reuse),
{
    Err(assemble_pass(file, includes, reuse))
}

/// Assembles `file` as `assemble` does where `assemble` may be called; else
/// gives back the check that stops it (a store dependency or an invalid
/// label). Either way the answer is `spec_assemble_error`.
pub fn try_assemble(file: &str, includes: &MutStrMap<String>, reuse: bool) -> (r: Result<
    KernelSection,
    AssembleError,
>)
    ensures
        r matches Err(e) && e == spec_assemble_error(file@, strings_view(includes@), reuse),
{
    let e = assemble_pass(file, includes, reuse);
    if e == AssembleError::StoreDependency || e == AssembleError::InvalidLabel {
        return Err(e);
    }
    assemble(file, includes, reuse)
}

/// Assembles the preprocessed text `text`: why it fails (see
/// `spec_assemble_text`).
fn assemble_text(text: &str) -> (r: AssembleError)
    requires
        grammar_builds(),
    ensures
        r == spec_assemble_text(text@),
{
    let sg = match SassGrammar::new() {
        Some(g) => g,
        None => return AssembleError::Grammar,
    };
    let grammar = match build_grammar() {
        Some(g) => g,
        None => return AssembleError::Grammar,
    };
    let mut slots: Vec<Slot> = Vec::new();
    slots.push(Slot { op: String::new(), inst: String::new() });
    let (labels, branches) = match scan_source(text, &sg, &slots) {
        Ok(p) => p,
        Err(e) => return e,
    };
    close_kernel(&mut slots);
    match remap_branches(&labels, &branches, &mut slots) {
        Some(e) => return e,
        None => {},
    }
    assert(slots_view(slots@).len() == slots@.len());
    match check_encodings(&grammar, &slots) {
        Some(e) => e,
        None => AssembleError::Unimplemented,
    }
}

} // verus!
