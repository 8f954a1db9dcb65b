//! The preprocessing pipeline without scheduling: a `SCHEDULE_BLOCK` is
//! replaced by what the scheduler gives, which is no text yet.
use vstd::prelude::*;

use crate::mut_map::MutStrMap;
use crate::sassas::{
    PreprocessError, RegMap, RegState, SCHEDULE_RE, group1_texts, group1s, interleave, newlines,
    preprocess_front, reg_state, spec_preprocess_front, strings_view,
};
use crate::text::{push_str, string_from_chars};
use crate::utils::{re_captures_iter, re_compile, re_split, regex_captures, regex_split, regex_valid};

verus! {

/// Schedules the instructions of a `SCHEDULE_BLOCK` (the `count`th of the
/// source); scheduling is not done, so it gives back no text.
pub fn scheduler(block: &str, count: usize, regmap: &RegMap, debug: bool) -> (r: String)
    ensures
        r@ == Seq::<char>::empty(),
{
    String::new()
}

/// The preprocessed source (see `spec_preprocess_front`), each
/// `SCHEDULE_BLOCK` replaced by the scheduler's text (none) and a newline.
pub open spec fn spec_maxas_preprocess(
    file: Seq<char>,
    inc: Map<Seq<char>, Seq<char>>,
    st: RegState,
    remove: bool,
) -> Result<(Seq<char>, RegState), PreprocessError> {
    match spec_preprocess_front(file, inc, st, remove) {
        Err(e) => Err(e),
        Ok((f5, st2)) => if !regex_valid(SCHEDULE_RE@) {
            Err(PreprocessError::BadPattern)
        } else {
            let caps = regex_captures(SCHEDULE_RE@, f5);
            match group1s(caps) {
                None => Err(PreprocessError::MissingGroup),
                Some(_) => Ok((interleave(regex_split(SCHEDULE_RE@, f5), newlines(caps.len())), st2)),
            }
        },
    }
}

/// Preprocesses `file` (see `spec_maxas_preprocess`), every failure coming
/// back as an error.
fn preprocess_pass(
    file: &str,
    includes: &MutStrMap<String>,
    debug: bool,
    regmap: &mut RegMap,
    remove_regmap: bool,
) -> (r: Result<String, PreprocessError>)
    ensures
        ({
            let want = spec_maxas_preprocess(
                file@,
                strings_view(includes@),
                reg_state(*old(regmap), Map::empty()),
                remove_regmap,
            );
            match r {
                Ok(t) => want == Ok::<(Seq<char>, RegState), PreprocessError>(
                    (t@, reg_state(*final(regmap), Map::empty())),
                ),
                Err(e) => want == Err::<(Seq<char>, RegState), PreprocessError>(e),
            }
        }),
{
    let f5 = match preprocess_front(file, includes, regmap, remove_regmap) {
        Ok(t) => t,
        Err(e) => return Err(e),
    };
    let re = match re_compile(SCHEDULE_RE) {
        Some(r) => r,
        None => return Err(PreprocessError::BadPattern),
    };
    let caps = re_captures_iter(&re, f5.as_str());
    let blocks = match group1_texts(&caps) {
        Some(b) => b,
        None => return Err(PreprocessError::MissingGroup),
    };
    let mut reps: Vec<String> = Vec::new();
    let mut count: usize = 0;
    while count < blocks.len()
        invariant
            count <= blocks@.len(),
            reps.len() == count,
            reps.deep_view() == newlines(count as nat),
        decreases blocks@.len() - count,
    {
        let text = scheduler(blocks[count].as_str(), count + 1, regmap, debug);
        let mut v: Vec<char> = Vec::new();
        push_str(&mut v, text.as_str());
        v.push('\n');
        let rep = string_from_chars(&v);
        let ghost rv = rep@;
        assert(rv =~= seq!['\n']);
        let ghost before = reps.deep_view();
        reps.push(rep);
        assert(reps.deep_view() =~= before.push(rv));
        count = count + 1;
        assert(reps.deep_view() =~= newlines(count as nat));
    }
    let pieces = re_split(&re, f5.as_str());
    Ok(crate::sassas::splice(&pieces, &reps))
}

/// Preprocesses the assembly source `file` (see `spec_maxas_preprocess`),
/// which the caller knows to preprocess: the files that its `INCLUDE` tags
/// name are given in `includes`; register mappings go into `regmap`, and are
/// taken out of the text where `remove_regmap`.
pub fn preprocess(
    file: &str,
    includes: &MutStrMap<String>,
    debug: bool,
    regmap: &mut RegMap,
    remove_regmap: bool,
) -> (r: Result<String, PreprocessError>)
    requires
        spec_maxas_preprocess(
            file@,
            strings_view(includes@),
            reg_state(*old(regmap), Map::empty()),
            remove_regmap,
        ) is Ok,
    ensures
        r matches Ok(t) && spec_maxas_preprocess(
            file@,
            strings_view(includes@),
            reg_state(*old(regmap), Map::empty()),
            remove_regmap,
        ) == Ok::<(Seq<char>, RegState), PreprocessError>((t@, reg_state(*final(regmap), Map::empty()))),
{
    preprocess_pass(file, includes, debug, regmap, remove_regmap)
}

/// Preprocesses `file` as `preprocess` does where it can be preprocessed;
/// else gives back why not (see `spec_maxas_preprocess`) and leaves `regmap`
/// as it was.
pub fn try_preprocess(
    file: &str,
    includes: &MutStrMap<String>,
    debug: bool,
    regmap: &mut RegMap,
    remove_regmap: bool,
) -> (r: Result<String, PreprocessError>)
    ensures
        ({
            let want = spec_maxas_preprocess(
                file@,
                strings_view(includes@),
                reg_state(*old(regmap), Map::empty()),
                remove_regmap,
            );
            match r {
                Ok(t) => want == Ok::<(Seq<char>, RegState), PreprocessError>(
                    (t@, reg_state(*final(regmap), Map::empty())),
                ),
                Err(e) => want == Err::<(Seq<char>, RegState), PreprocessError>(e)
                    && reg_state(*final(regmap), Map::empty()) == reg_state(*old(regmap), Map::empty()),
            }
        }),
{
    let mut trial = regmap.duplicate();
    match preprocess_pass(file, includes, debug, &mut trial, remove_regmap) {
        Err(e) => Err(e),
        Ok(_) => preprocess(file, includes, debug, regmap, remove_regmap),
    }
}

} // verus!
