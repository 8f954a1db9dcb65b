use sassas::assembler::{assemble, remap_branch, scan_source, try_assemble, AssembleError, Slot};
use sassas::mut_map::MutStrMap;
use sassas::sassas::PreprocessError;
use sassas::sassas_grammar::SassGrammar;

fn no_includes() -> MutStrMap<String> {
    MutStrMap::new()
}

fn slot(op: &str, inst: &str) -> Slot {
    Slot { op: op.to_string(), inst: inst.to_string() }
}

#[test]
fn the_grammar_rules_do_not_compile() {
    // the encodings' rules are written with `(?^:`, which the regex crate
    // does not take, so every source that preprocesses stops there
    assert_eq!(assemble("", &no_includes(), false).err(), Some(AssembleError::Grammar));
    let r = assemble("--:-:1:-:1      STG [R0], R1;", &no_includes(), true);
    assert_eq!(r.err(), Some(AssembleError::Grammar));
}

#[test]
fn lines_are_instructions_or_labels() {
    let sg = SassGrammar::new().unwrap();
    let start = vec![slot("", "")];
    let (labels, branches) =
        scan_source("--:-:-:-:1      @P0 STG [R0], R1;\nloop:\n--:-:-:-:1      @P0 BRA loop;", &sg, &start).unwrap();
    assert_eq!(labels.get("loop"), Some(&1));
    assert_eq!(labels.len(), 1);
    assert_eq!(branches, vec![1]);
    let r = scan_source("--:-:1:-:1      @P0 STG [R0], R1;", &sg, &start);
    assert_eq!(r.err(), Some(AssembleError::StoreDependency));
    let r = scan_source("--:-:-:-:1      @P0 NOP;\nwhat", &sg, &start);
    assert_eq!(r.err(), Some(AssembleError::BadlyFormed));
    let r = scan_source("loop:\n", &sg, &start);
    assert_eq!(r.err(), Some(AssembleError::BadlyFormed));
    let r = scan_source("ff:-:-:-:1      @P0 NOP;", &sg, &start);
    assert_eq!(r.err(), Some(AssembleError::BadInstruction));
    // an instruction without a predicate lacks a field that is read
    let r = scan_source("--:-:-:-:1      NOP;", &sg, &start);
    assert_eq!(r.err(), Some(AssembleError::BadInstruction));
}

#[test]
fn missing_include_stops_assembling() {
    let r = assemble("<INCLUDE file=\"k.sass\"/>\n", &no_includes(), false);
    assert_eq!(r.err(), Some(AssembleError::Preprocess(PreprocessError::MissingInclude)));
}

#[test]
fn branch_targets() {
    let mut labels: MutStrMap<u64> = MutStrMap::new();
    labels.insert("0", 1);
    labels.insert("loop", 1);
    assert_eq!(remap_branch(&labels, "BRA", "BRA 0;"), Ok("BRA 0x000000".to_string()));
    assert_eq!(remap_branch(&labels, "JCAL", "JCAL 0;"), Ok("JCAL 0x000008".to_string()));
    assert_eq!(remap_branch(&labels, "BRA", "BRA loop;"), Err(AssembleError::BadOffset));
    assert_eq!(remap_branch(&labels, "BRA", "BRA done;"), Err(AssembleError::InvalidLabel));
    assert_eq!(remap_branch(&labels, "BRA", "BRA 0xfffff8"), Err(AssembleError::InvalidLabel));
    let mut far: MutStrMap<u64> = MutStrMap::new();
    far.insert("7", 3);
    assert_eq!(remap_branch(&far, "BRA", "BRA 7;"), Err(AssembleError::BadOffset));
    far.insert("1", 3);
    assert_eq!(remap_branch(&far, "SSY", "SSY 1;"), Ok("SSY 0x000008".to_string()));
}

#[test]
fn checked_assembling_gives_the_same_answer() {
    assert_eq!(try_assemble("", &no_includes(), false).err(), Some(AssembleError::Grammar));
    let r = try_assemble("<INCLUDE file=\"k.sass\"/>\n", &no_includes(), true);
    assert_eq!(r.err(), Some(AssembleError::Preprocess(PreprocessError::MissingInclude)));
    let r = try_assemble("--:-:1:-:1      @P0 STG [R0], R1;", &no_includes(), false);
    assert_eq!(r.err(), Some(AssembleError::Grammar));
}
