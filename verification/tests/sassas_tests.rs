use sassas::mut_map::MutStrMap;
use sassas::registers::{get_addr_vec_registers, get_reg_num, get_vec_registers, RegLookupError};
use sassas::sassas::{
    constmap_lookup, get_range, include_names, include_step, preprocess, read_register_map,
    set_constmap, try_preprocess, PreprocessError, RegMap, RegMapError, RegVal,
};
use sassas::utils::{regex_match, regex_matches, regex_replace, regex_strip, re_match_names, re_matches, Re};

fn chars(s: &str) -> Vec<char> {
    s.chars().collect()
}

fn map_of(pairs: &[(&str, &str)]) -> MutStrMap<String> {
    let mut m = MutStrMap::new();
    for (k, v) in pairs {
        m.insert(k, v.to_string());
    }
    m
}

#[test]
fn ranges_of_register_numbers() {
    assert_eq!(get_range(&vec![chars("3")]), Some((3, 4)));
    assert_eq!(get_range(&vec![chars("2"), chars("5")]), Some((2, 6)));
    assert_eq!(get_range(&vec![chars("5"), chars("2")]), Some((5, 3)));
    assert_eq!(get_range(&vec![chars("x")]), None);
    assert_eq!(get_range(&vec![chars("1"), chars(" 2")]), None);
}

#[test]
fn constant_mappings() {
    let mut m: MutStrMap<String> = MutStrMap::new();
    let r = set_constmap(&mut m, "A: 1\n# a comment\n\nB : 2 // another");
    assert_eq!(r, Some(String::new()));
    assert_eq!(m.get("A"), Some(&"1".to_string()));
    assert_eq!(m.get("B"), Some(&"2".to_string()));
    assert_eq!(m.len(), 2);
    assert_eq!(constmap_lookup(&m, "A"), "1");
    assert_eq!(constmap_lookup(&m, "Z"), "Z");
}

#[test]
fn constant_mapping_without_colon() {
    let mut m: MutStrMap<String> = MutStrMap::new();
    assert_eq!(set_constmap(&mut m, "nocolon"), None);
}

#[test]
fn register_mapping_comment_pattern_does_not_compile() {
    // the pattern a register mapping strips its comments with is not a
    // valid regular expression, so no mapping can be read
    let mut m = RegMap::new();
    assert_eq!(read_register_map(&mut m, "0-3: a", false), Err(RegMapError::BadPattern));
    assert_eq!(read_register_map(&mut m, "0: b", true), Err(RegMapError::BadPattern));
    assert_eq!(m.regs.len(), 0);
}

#[test]
fn missing_include_is_refused() {
    let inc: MutStrMap<String> = MutStrMap::new();
    let mut m = RegMap::new();
    m.regbank.insert("x", "1".to_string());
    let r = try_preprocess("<INCLUDE file=\"a.sass\"/>\n", &inc, false, &mut m, true);
    assert_eq!(r, Err(PreprocessError::MissingInclude));
    assert_eq!(m.regbank.len(), 1);
    assert_eq!(m.regbank.get("x"), Some(&"1".to_string()));
    let r = sassas::maxas::try_preprocess("<INCLUDE file=\"a.sass\"/>\n", &inc, false, &mut m, true);
    assert_eq!(r, Err(PreprocessError::MissingInclude));
    assert_eq!(m.regbank.len(), 1);
}

#[test]
fn includes_are_spliced() {
    let inc = map_of(&[("a.sass", "Y")]);
    assert_eq!(include_step("<INCLUDE file=\"a.sass\"/>\nX", &inc), Ok("Y\nX".to_string()));
    assert_eq!(include_step("X", &inc), Ok("X".to_string()));
    assert_eq!(
        include_step("<INCLUDE file=\"b.sass\"/>\nX", &inc),
        Err(PreprocessError::MissingInclude)
    );
}

#[test]
fn preprocess_repeats_the_text_once_per_line() {
    let inc: MutStrMap<String> = MutStrMap::new();
    let mut m = RegMap::new();
    let r = preprocess("MOV R1;\nNOP;", &inc, false, &mut m, false);
    assert_eq!(r, Ok("MOV R1;\nNOP;\nMOV R1;\nNOP;\n".to_string()));
    let mut m = RegMap::new();
    let r = try_preprocess("MOV R1;\nNOP;", &inc, false, &mut m, false);
    assert_eq!(r, Ok("MOV R1;\nNOP;\nMOV R1;\nNOP;\n".to_string()));
}

#[test]
fn register_names() {
    let mut m = RegMap::new();
    m.regs.insert("a", RegVal::Name("R3".to_string()));
    m.regs.insert("b", RegVal::Nums(vec![1, 2]));
    assert_eq!(get_reg_num(&m, "a"), Some("R3".to_string()));
    assert_eq!(get_reg_num(&m, "c"), Some("c".to_string()));
    assert_eq!(get_reg_num(&m, "b"), None);
}

#[test]
fn vector_operands() {
    let mut vectors: MutStrMap<Vec<String>> = MutStrMap::new();
    vectors.insert("v", vec!["R8".to_string(), "R9".to_string()]);
    assert_eq!(get_vec_registers(&vectors, &map_of(&[("r0", "R4"), ("type", ".64")])), Ok(Some("R4R5".to_string())));
    assert_eq!(get_vec_registers(&vectors, &map_of(&[("r0", "RZ")])), Ok(None));
    assert_eq!(get_vec_registers(&vectors, &map_of(&[])), Ok(None));
    assert_eq!(get_vec_registers(&vectors, &map_of(&[("r0", "v"), ("type", ".64")])), Ok(Some("R8R9".to_string())));
    assert_eq!(get_vec_registers(&vectors, &map_of(&[("r0", "R4")])), Err(RegLookupError::MissingField));
    // a type other than `.64` reads the `131w4` field, which must be there
    assert_eq!(
        get_vec_registers(&vectors, &map_of(&[("r0", "R4"), ("type", ".128")])),
        Err(RegLookupError::MissingField)
    );
    assert_eq!(
        get_vec_registers(&vectors, &map_of(&[("r0", "R4"), ("type", ".128"), ("131w4", "0x0")])),
        Ok(Some("R4R5R6R7".to_string()))
    );
    assert_eq!(
        get_vec_registers(&vectors, &map_of(&[("r0", "R4"), ("type", ".32"), ("131w4", "0xf")])),
        Ok(Some("R4R5R6R7".to_string()))
    );
    assert_eq!(
        get_vec_registers(&vectors, &map_of(&[("r0", "R4"), ("type", ".32"), ("131w4", "0x0")])),
        Ok(Some("R4".to_string()))
    );
    assert_eq!(
        get_vec_registers(&vectors, &map_of(&[("r0", "w"), ("type", ".64")])),
        Err(RegLookupError::NotAVector)
    );
}

#[test]
fn address_vector_operands() {
    let mut vectors: MutStrMap<Vec<String>> = MutStrMap::new();
    vectors.insert("v", vec!["R8".to_string(), "R9".to_string()]);
    assert_eq!(get_addr_vec_registers(&vectors, &map_of(&[("r8", "R2"), ("E", "")])), Ok(Some("R2R3".to_string())));
    assert_eq!(get_addr_vec_registers(&vectors, &map_of(&[("r8", "R2")])), Ok(Some("R2".to_string())));
    assert_eq!(get_addr_vec_registers(&vectors, &map_of(&[("r8", "v"), ("E", "")])), Ok(Some("R8".to_string())));
    assert_eq!(get_addr_vec_registers(&vectors, &map_of(&[("r8", "RZ"), ("E", "")])), Ok(None));
}

#[test]
fn regex_helpers() {
    assert_eq!(regex_strip(r"\d", "a1b2"), Some("ab".to_string()));
    assert_eq!(regex_strip(r"(", "a1b2"), None);
    assert_eq!(regex_replace(r"\s+", " ", "a   b"), Some("a b".to_string()));
    assert_eq!(regex_match(r"^a", "abc"), Some(true));
    assert_eq!(regex_match(r"^b", "abc"), Some(false));
    let m = regex_matches(r"(\d)(x)?", "1 2x").expect("valid");
    assert_eq!(m.len(), 2);
    assert_eq!(m[0], vec![Some("1".to_string()), Some("1".to_string()), None]);
    assert_eq!(m[1], vec![Some("2x".to_string()), Some("2".to_string()), Some("x".to_string())]);
    assert_eq!(regex_matches(r"z", "abc"), Some(vec![]));
}

#[test]
fn named_groups_of_a_pattern() {
    let re = Re::new(r"(?<op>\w+) (\d+)(?<rest>.*)").expect("valid");
    assert_eq!(re_match_names(&re), vec!["op".to_string(), "rest".to_string()]);
    let m = re_matches(&re, "MOV 12;");
    assert_eq!(m.len(), 1);
    assert_eq!(m[0][1], Some("MOV".to_string()));
    assert!(Re::new("(").is_none());
}

#[test]
fn include_names_in_order() {
    assert_eq!(
        include_names("<INCLUDE file=\"a.sass\"/>\nX"),
        Ok(vec!["a.sass".to_string()])
    );
    assert_eq!(include_names("no tags here"), Ok(vec![]));
}

#[test]
fn maxas_preprocess_without_scheduling() {
    let inc = map_of(&[("a.sass", "NOP;")]);
    let mut m = RegMap::new();
    let r = sassas::maxas::preprocess("<INCLUDE file=\"a.sass\"/>\nMOV R1;", &inc, false, &mut m, false);
    assert_eq!(r, Ok("NOP;\nMOV R1;\nNOP;\nMOV R1;\n".to_string()));
    assert_eq!(sassas::maxas::scheduler("MOV R1;", 1, &m, false), "");
}

#[test]
fn maps_default_to_empty() {
    let m: MutStrMap<u32> = MutStrMap::default();
    assert_eq!(m.len(), 0);
    let n: sassas::mut_map::MutMap<u64, u32> = Default::default();
    assert_eq!(n.len(), 0);
}

#[test]
fn register_number_too_large() {
    let vectors: MutStrMap<Vec<String>> = MutStrMap::new();
    assert_eq!(
        get_vec_registers(&vectors, &map_of(&[("r0", "R99999999999999999999"), ("type", ".64")])),
        Err(RegLookupError::BadNumber)
    );
    assert_eq!(
        get_addr_vec_registers(&vectors, &map_of(&[("r8", "R18446744073709551615"), ("E", "")])),
        Err(RegLookupError::BadNumber)
    );
}
