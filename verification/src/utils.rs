//! Regular expressions, through the `regex` crate.
//!
//! What a pattern matches is the `regex` crate's business; the library names
//! those results (`regex_valid`, `regex_is_match`, `regex_captures`,
//! `regex_group_names`, `regex_replace_all`) and builds on them.
use vstd::prelude::*;

verus! {

/// The type `regex::Regex`, declared so that a compiled regex can be held in a
/// field; Verus sees nothing inside it.
#[verifier::external_type_specification]
#[verifier::external_body]
pub struct ExRegex(regex::Regex);

/// Whether `pattern` compiles (it is valid syntax and within the default
/// size limit). The size limit counts memory in a way that depends on the
/// pointer width, so a pattern close to it may compile on one machine and
/// not on another; within one build the answer depends on the pattern alone.
pub uninterp spec fn regex_valid(pattern: Seq<char>) -> bool;

/// Whether `pattern` matches anywhere in `text`.
pub uninterp spec fn regex_is_match(pattern: Seq<char>, text: Seq<char>) -> bool;

/// The successive non-overlapping matches of `pattern` in `text`; for each,
/// the text of every capture group (group 0 is the whole match), `None` for
/// a group that took no part in the match.
pub uninterp spec fn regex_captures(pattern: Seq<char>, text: Seq<char>) -> Seq<
    Seq<Option<Seq<char>>>,
>;

/// The names of the capture groups of `pattern`, group by group (`None` for
/// an unnamed group, and always for group 0).
pub uninterp spec fn regex_group_names(pattern: Seq<char>) -> Seq<Option<Seq<char>>>;

/// `text` with every non-overlapping match of `pattern` replaced by the
/// expansion of `rep` (where `$name` and `${n}` stand for capture groups).
pub uninterp spec fn regex_replace_all(pattern: Seq<char>, text: Seq<char>, rep: Seq<char>) -> Seq<
    char,
>;

/// A compiled regular expression together with its source pattern.
pub struct Re {
    source: String,
    re: regex::Regex,
}

impl Re {
    /// The pattern this regular expression was compiled from.
    pub closed spec fn pattern(&self) -> Seq<char> {
        self.source@
    }

    /// Compiles `pattern`: `Some` exactly when it compiles.
    pub fn new(pattern: &str) -> (r: Option<Re>)
        ensures
            r is Some <==> regex_valid(pattern@),
            r matches Some(re) ==> re.pattern() == pattern@,
    {
        re_compile(pattern)
    }
}

/// Compiles `pattern` with `regex::Regex::new`: `Some` exactly when the
/// pattern compiles (the crate's documentation: an invalid or too large
/// pattern gives an error).
#[verifier::external_body]
pub(crate) fn re_compile(pattern: &str) -> (r: Option<Re>)
    ensures
        r is Some <==> regex_valid(pattern@),
        r matches Some(re) ==> re.pattern() == pattern@,
{
    match regex::Regex::new(pattern) {
        Ok(re) => Some(Re { source: pattern.to_string(), re }),
        Err(_) => None,
    }
}

/// `regex::Regex::is_match`: whether the regex matches anywhere in `text`.
#[verifier::external_body]
pub(crate) fn re_is_match(re: &Re, text: &str) -> (b: bool)
    ensures
        b == regex_is_match(re.pattern(), text@),
{
    re.re.is_match(text)
}

/// `regex::Regex::captures_iter`, each match turned into the texts of its
/// groups. The crate documents that there is a match exactly when `is_match`
/// holds, and that every match has the whole match as group 0 and one entry
/// per group of the pattern.
#[verifier::external_body]
pub(crate) fn re_captures_iter(re: &Re, text: &str) -> (r: Vec<Vec<Option<String>>>)
    ensures
        r.deep_view() == regex_captures(re.pattern(), text@),
        r.len() > 0 <==> regex_is_match(re.pattern(), text@),
        forall|i: int|
            0 <= i < r.len() ==> (#[trigger] r[i]).len() == regex_group_names(re.pattern()).len()
                && r[i][0] is Some,
{
    re.re.captures_iter(text).map(
        |caps| caps.iter().map(|g| g.map(|m| m.as_str().to_string())).collect(),
    ).collect()
}

/// `regex::Regex::capture_names`: the group names, group 0 first (which the
/// crate documents as always present and unnamed).
#[verifier::external_body]
pub(crate) fn re_capture_names(re: &Re) -> (r: Vec<Option<String>>)
    ensures
        r.deep_view() == regex_group_names(re.pattern()),
        r.len() >= 1,
        r[0] is None,
{
    re.re.capture_names().map(|n| n.map(|s| s.to_string())).collect()
}

/// The pieces of `text` between the successive non-overlapping matches of
/// `pattern`, in order (the first before the first match, the last after the
/// last match).
pub uninterp spec fn regex_split(pattern: Seq<char>, text: Seq<char>) -> Seq<Seq<char>>;

/// `regex::Regex::split`: the pieces of `text` between the matches. The
/// crate's source yields one piece more than there are matches (the same
/// successive non-overlapping matches that `captures_iter` walks), and, with
/// no match, `text` itself as the only piece.
#[verifier::external_body]
pub(crate) fn re_split(re: &Re, text: &str) -> (r: Vec<String>)
    ensures
        r.deep_view() == regex_split(re.pattern(), text@),
        r.len() == regex_captures(re.pattern(), text@).len() + 1,
        !regex_is_match(re.pattern(), text@) ==> r.deep_view() == seq![text@],
{
    re.re.split(text).map(|p| p.to_string()).collect()
}

/// `regex::Regex::replace_all`; the crate documents that a text without a
/// match comes back unchanged.
#[verifier::external_body]
pub(crate) fn re_replace_all(re: &Re, text: &str, rep: &str) -> (r: String)
    ensures
        r@ == regex_replace_all(re.pattern(), text@, rep@),
        !regex_is_match(re.pattern(), text@) ==> r@ == text@,
{
    re.re.replace_all(text, rep).into_owned()
}

/// What `regex_matches` gives: no list for an invalid pattern, else the
/// captures of every match (none when there is no match).
pub open spec fn spec_regex_matches(expr: Seq<char>, line: Seq<char>) -> Option<
    Seq<Seq<Option<Seq<char>>>>,
> {
    if !regex_valid(expr) {
        None
    } else if regex_is_match(expr, line) {
        Some(regex_captures(expr, line))
    } else {
        Some(Seq::empty())
    }
}

/// The names of the named groups, in group order.
pub open spec fn named_groups(names: Seq<Option<Seq<char>>>) -> Seq<Seq<char>>
    decreases names.len(),
{
    if names.len() == 0 {
        Seq::empty()
    } else {
        let rest = named_groups(names.drop_last());
        match names.last() {
            Some(n) => rest.push(n),
            None => rest,
        }
    }
}

/// `line` with every match of `expr` removed; `None` if `expr` does not
/// compile.
pub fn regex_strip(expr: &str, line: &str) -> (r: Option<String>)
    ensures
        r is Some <==> regex_valid(expr@),
        r matches Some(s) ==> s@ == regex_replace_all(expr@, line@, Seq::empty()),
{
    let re = match re_compile(expr) {
        Some(re) => re,
        None => return None,
    };
    proof {
        reveal_strlit("");
        assert(""@ =~= Seq::<char>::empty());
    }
    Some(re_replace_all(&re, line, ""))
}

/// `line` with every match of `expr` replaced by `rep`; `None` if `expr`
/// does not compile.
pub fn regex_replace(expr: &str, rep: &str, line: &str) -> (r: Option<String>)
    ensures
        r is Some <==> regex_valid(expr@),
        r matches Some(s) ==> s@ == regex_replace_all(expr@, line@, rep@),
{
    let re = match re_compile(expr) {
        Some(re) => re,
        None => return None,
    };
    Some(re_replace_all(&re, line, rep))
}

/// Whether `expr` matches in `line`; `None` if `expr` does not compile.
pub fn regex_match(expr: &str, line: &str) -> (r: Option<bool>)
    ensures
        r is Some <==> regex_valid(expr@),
        r matches Some(b) ==> b == regex_is_match(expr@, line@),
{
    let re = match re_compile(expr) {
        Some(re) => re,
        None => return None,
    };
    Some(re_is_match(&re, line))
}

/// The captures of every match of `expr` in `line` (empty when it does not
/// match); `None` if `expr` does not compile.
pub fn regex_matches(expr: &str, line: &str) -> (r: Option<Vec<Vec<Option<String>>>>)
    ensures
        match r {
            Some(v) => spec_regex_matches(expr@, line@) == Some(v.deep_view()),
            None => spec_regex_matches(expr@, line@) is None,
        },
        r matches Some(v) ==> forall|i: int|
            0 <= i < v.len() ==> (#[trigger] v[i]).len() == regex_group_names(expr@).len()
                && v[i][0] is Some,
{
    let re = match re_compile(expr) {
        Some(re) => re,
        None => return None,
    };
    Some(re_matches(&re, line))
}

/// The captures of every match of `re` in `line`, empty when it does not
/// match.
pub fn re_matches(re: &Re, line: &str) -> (r: Vec<Vec<Option<String>>>)
    ensures
        r.len() > 0 <==> regex_is_match(re.pattern(), line@),
        r.deep_view() == (if regex_is_match(re.pattern(), line@) {
            regex_captures(re.pattern(), line@)
        } else {
            Seq::empty()
        }),
        forall|i: int|
            0 <= i < r.len() ==> (#[trigger] r[i]).len() == regex_group_names(re.pattern()).len()
                && r[i][0] is Some,
{
    if re_is_match(re, line) {
        re_captures_iter(re, line)
    } else {
        let v: Vec<Vec<Option<String>>> = Vec::new();
        assert(v.deep_view() =~= Seq::<Seq<Option<Seq<char>>>>::empty());
        v
    }
}

/// The names of the named capture groups of `re`, in group order.
pub fn re_match_names(re: &Re) -> (r: Vec<String>)
    ensures
        r.deep_view() == named_groups(regex_group_names(re.pattern())),
{
    let names = re_capture_names(re);
    let mut out: Vec<String> = Vec::new();
    let mut i: usize = 0;
    while i < names.len()
        invariant
            i <= names@.len(),
            names.deep_view() == regex_group_names(re.pattern()),
            out.deep_view() == named_groups(names.deep_view().take(i as int)),
        decreases names@.len() - i,
    {
        proof {
            assert(names.deep_view().take(i + 1).drop_last() =~= names.deep_view().take(i as int));
        }
        match &names[i] {
            Some(n) => {
                out.push(n.clone());
                proof {
                    assert(out.deep_view() =~= named_groups(names.deep_view().take(i as int)).push(
                        n@,
                    ));
                }
            },
            None => {},
        }
        i = i + 1;
    }
    proof {
        assert(names.deep_view().take(names@.len() as int) =~= names.deep_view());
    }
    out
}

/// What `regex_match` gives: no answer for an invalid pattern.
pub open spec fn spec_regex_match(expr: Seq<char>, line: Seq<char>) -> Option<bool> {
    if regex_valid(expr) {
        Some(regex_is_match(expr, line))
    } else {
        None
    }
}

/// What `regex_strip` gives: no text for an invalid pattern.
pub open spec fn spec_regex_strip(expr: Seq<char>, line: Seq<char>) -> Option<Seq<char>> {
    if regex_valid(expr) {
        Some(regex_replace_all(expr, line, Seq::empty()))
    } else {
        None
    }
}

/// Group `g` of the first match in a `regex_matches` result, if it took part.
pub open spec fn first_group(m: Option<Seq<Seq<Option<Seq<char>>>>>, g: int) -> Option<Seq<char>> {
    match m {
        Some(ms) => if ms.len() > 0 && 0 <= g < ms[0].len() {
            ms[0][g]
        } else {
            None
        },
        None => None,
    }
}

/// Group `g` of the first match in a `regex_matches` result, if it took part.
pub fn first_group_of(m: &Option<Vec<Vec<Option<String>>>>, g: usize) -> (r: Option<Vec<char>>)
    ensures
        match r {
            Some(v) => first_group(m.deep_view(), g as int) == Some(v@),
            None => first_group(m.deep_view(), g as int) is None,
        },
{
    match m {
        Some(ms) => {
            if ms.len() > 0 && g < ms[0].len() {
                match &ms[0][g] {
                    Some(t) => Some(crate::text::chars_of(t.as_str())),
                    None => None,
                }
            } else {
                None
            }
        },
        None => None,
    }
}

} // verus!
