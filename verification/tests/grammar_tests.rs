use sassas::base_grammar;
use sassas::grammar::{instr_type, InstrClass};
use sassas::mut_map::MutStrMap;
use sassas::sassas_grammar::SassGrammar;
use sassas::flags::{build_flags, classify_flag_line, flags_from_lines, FlagLine, FlagVal};
use sassas::sassas_grammar::{
    build_operands, getC, getF, getI, getP, getR, hex, normalize_spacing, print_ctrl,
    process_sass_ctrl_line, read_ctrl, split_ctrl_word, try_read_ctrl, OperandEnc,
};

#[test]
fn hex_reads_decimal_text() {
    assert_eq!(hex("42"), 42);
    assert_eq!(hex("+7"), 7);
}

#[test]
fn predicate_operands() {
    assert_eq!(getP("P3", 0), Some(3));
    assert_eq!(getP("PT", 4), Some(7 << 4));
    assert_eq!(getP("Q1", 0), None);
}

#[test]
fn register_operands() {
    assert_eq!(getR("R12", 8), Some(12 << 8));
    assert_eq!(getR("R0", 20), Some(0));
    assert_eq!(getR("R255", 0), None);
    // the zero register's letter is no number
    assert_eq!(getR("RZ", 0), None);
    assert_eq!(getR("X1", 0), None);
}

#[test]
fn constant_offsets() {
    assert_eq!(getC("16"), 4 << 20);
    assert_eq!(getC("0"), 0);
}

#[test]
fn float_operands() {
    assert_eq!(getF("INF", 20, 'f', 12), Some(0x7f800 << 20));
    assert_eq!(getF("INF", 20, 'd', 44), Some(0x7ff00 << 20));
    assert_eq!(getF("-INF", 0, 'f', 0), Some(0x7f800000));
    assert_eq!(getF("100", 4, 'f', 0), Some(1600));
    assert_eq!(getF("4096", 0, 'f', 12), Some(1));
    // a hex literal is read as decimal text, which it is not
    assert_eq!(getF("0x10", 0, 'f', 0), None);
}

#[test]
fn integer_immediates() {
    // only hex literals are accepted, and they are read as decimal text
    assert_eq!(getI("0x5", 20, 0xff), None);
    assert_eq!(getI("5", 20, 0xff), None);
    assert_eq!(getI("-0x5", 20, 0xff), None);
}

#[test]
fn operand_table_entries() {
    let ops = build_operands();
    assert_eq!(ops.get("r0"), Some(&OperandEnc::Reg(0)));
    assert_eq!(ops.get("p12"), Some(&OperandEnc::Pred(12)));
    assert_eq!(ops.get("c20"), Some(&OperandEnc::ConstOffset));
    assert_eq!(ops.get("i20"), Some(&OperandEnc::Imm(20, 0x7_ffff)));
    assert!(ops.get("nothing").is_none());
    let base = base_grammar::build_operands();
    assert_eq!(base.len(), ops.len());
}

#[test]
fn spacing_is_normalized() {
    assert_eq!(normalize_spacing("MOV  R1,\tR2;"), Some("MOV R1, R2;".to_string()));
    assert_eq!(normalize_spacing("NOP;"), Some("NOP;".to_string()));
}

#[test]
fn control_codes_print() {
    assert_eq!(print_ctrl(0x7e0), "----Y0");
    assert_eq!(print_ctrl(0), "--11Y0");
    assert_eq!(print_ctrl(0x1f800 | 0x10 | 0xf), "3f11-f");
    assert_eq!(print_ctrl(0x800), " 111Y0");
}

#[test]
fn control_codes_read() {
    assert_eq!(read_ctrl("--:-:-:Y:0", ""), 0x7e0);
    assert_eq!(read_ctrl("1:2:3:-:5", ""), 0x955);
    assert_eq!(try_read_ctrl("--:-:-:Y:0", ""), Some(0x7e0));
    assert_eq!(try_read_ctrl("x:1:1:Y:0", ""), None);
    assert_eq!(try_read_ctrl("64:1:1:Y:0", ""), None);
    assert_eq!(try_read_ctrl("1:2:3", ""), None);
}

#[test]
fn control_words_split() {
    let (c, u) = split_ctrl_word(0x7e0 | (0x7e0 << 21) | (0x3 << 17) | (1u64 << 59));
    assert_eq!(c, vec![0x7e0, 0x7e0, 0]);
    assert_eq!(u, vec![3, 0, 1]);
}

#[test]
fn control_lines_of_cuobjdump() {
    let mut ctrl = Vec::new();
    let mut ruse = Vec::new();
    assert_eq!(process_sass_ctrl_line("MOV R1, R2;", &mut ctrl, &mut ruse), Some(false));
    // the word is hexadecimal text, read as decimal: it cannot be read
    assert_eq!(process_sass_ctrl_line("        /* 0x001c7c00e22007f6 */", &mut ctrl, &mut ruse), None);
    assert!(ctrl.is_empty());
    assert!(ruse.is_empty());
}

#[test]
fn flags_table_builds() {
    assert!(build_flags().is_some());
}

#[test]
fn base_grammar_has_every_op() {
    let g = base_grammar::build_grammar();
    assert_eq!(g.len(), 121);
    assert!(g.contains_key("FFMA"));
    assert!(g.contains_key("BRA"));
}

#[test]
fn instruction_classes() {
    let t = instr_type(InstrClass::Gmem);
    assert_eq!(t.class, "mem");
    assert_eq!((t.lat, t.blat, t.rlat, t.rhold, t.tput), (2, 200, 4, 20, 1));
    assert!(t.dual && !t.reuse);
    let x = instr_type(InstrClass::X32);
    assert_eq!(x.class, "x32");
    assert!(x.reuse);
}

#[test]
fn assembly_lines_are_read() {
    let sg = SassGrammar::new().expect("the grammar's patterns compile");
    let a = sg
        .process_asm_line("--:-:-:-:1      @P0 MOV R1, R2; // copy", 3)
        .expect("fields present")
        .expect("an instruction line");
    assert_eq!(a.linenum, 3);
    assert_eq!(a.op, "MOV");
    assert_eq!(a.pred, "@P0 ");
    assert_eq!(a.pred_reg, "P0");
    assert_eq!(a.inst, "@P0 MOV R1, R2;");
    assert_eq!(a.comment, " // copy");
    assert_eq!(a.ctrl, 0x7f1);
    assert!(matches!(sg.process_asm_line("LOOP:", 4), Some(None)));
    let mut caps: MutStrMap<String> = MutStrMap::new();
    caps.insert("reuse1", String::new());
    caps.insert("reuse3", String::new());
    assert_eq!(sg.gen_reuse_code(&caps), 5);
}

#[test]
fn grammar_rules_do_not_compile() {
    // the rules use the `(?^:` group syntax, which the regex crate refuses
    assert!(sassas::sassas_grammar::build_grammar().is_none());
}

#[test]
fn flag_table_lines() {
    match classify_flag_line("FFMA, FADD: rnd") {
        Some(FlagLine::Ops(ops, group)) => {
            assert_eq!(ops, vec!["FFMA".chars().collect::<Vec<char>>(), " FADD".chars().collect()]);
            assert_eq!(group, Some("rnd".chars().collect()));
        }
        _ => panic!("an opcode line"),
    }
    // flag values are hex text, which is read as decimal
    assert!(classify_flag_line("0x1 .RN").is_none());
    let lines = vec![
        FlagLine::Ops(vec!["FFMA".chars().collect()], None),
        FlagLine::Value(3, ".FTZ".chars().collect()),
        FlagLine::Ops(vec!["FADD".chars().collect()], Some("rnd".chars().collect())),
        FlagLine::Value(1, ".RM".chars().collect()),
    ];
    let t = flags_from_lines(&lines);
    assert_eq!(t.len(), 2);
    match t.get("FFMA").and_then(|m| m.get(".FTZ")) {
        Some(FlagVal::Bits(b)) => assert_eq!(*b, 3),
        _ => panic!("FFMA .FTZ"),
    }
    match t.get("FADD").and_then(|m| m.get("rnd")) {
        Some(FlagVal::Choice(c)) => assert_eq!(c.get(".RM"), Some(&1)),
        _ => panic!("FADD rnd"),
    }
}
