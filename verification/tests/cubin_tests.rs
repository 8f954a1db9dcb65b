use sassas::cubin::{
    extract_param_sec, hex32, read_header, read_u16, read_u32, read_u64, words_of, Cubin,
    CubinError, ParamVal,
};
use sassas::sval::{binding, ElfSymbol, SecHdr, SymBind};

fn put16(d: &mut Vec<u8>, o: usize, v: u16) {
    d[o..o + 2].copy_from_slice(&v.to_le_bytes());
}

fn put32(d: &mut Vec<u8>, o: usize, v: u32) {
    d[o..o + 4].copy_from_slice(&v.to_le_bytes());
}

fn put64(d: &mut Vec<u8>, o: usize, v: u64) {
    d[o..o + 8].copy_from_slice(&v.to_le_bytes());
}

/// Appends the bytes of a section, returning its offset.
fn add(d: &mut Vec<u8>, bytes: &[u8]) -> usize {
    while d.len() % 8 != 0 {
        d.push(0);
    }
    let o = d.len();
    d.extend_from_slice(bytes);
    o
}

/// A 64-bit section header at `o`.
#[allow(clippy::too_many_arguments)]
fn shdr(d: &mut Vec<u8>, o: usize, name: u32, typ: u32, flags: u64, off: u64, size: u64, info: u32, ent: u64) {
    put32(d, o, name);
    put32(d, o + 4, typ);
    put64(d, o + 8, flags);
    put64(d, o + 24, off);
    put64(d, o + 32, size);
    put32(d, o + 44, info);
    put64(d, o + 56, ent);
}

/// A small 64-bit cubin with one kernel `k`. The section names are taken
/// from the string table by position in its list of strings.
fn sample_cubin(sym_info: u8, with_info: bool) -> Vec<u8> {
    let mut d = vec![0u8; 64];
    put16(&mut d, 16, 2);
    put32(&mut d, 48, 0x0532);
    let strtab = b"\0.shstrtab\0.symtab\0.text.k\0.nv.constant0.k\0.nv.info.k\0k\0";
    let str_off = add(&mut d, strtab);
    let mut syms = vec![0u8; 48];
    put32(&mut syms, 24, 6);
    syms[28] = sym_info;
    syms[30] = 3;
    let sym_off = add(&mut d, &syms);
    let text_off = add(&mut d, &[1, 2, 3, 4, 5, 6, 7, 8]);
    let const_off = add(&mut d, &[9, 9, 9, 9]);
    let mut info = Vec::new();
    for w in [0x00080a04u32, 0, 0x10, 0] {
        info.extend_from_slice(&w.to_le_bytes());
    }
    let info_off = add(&mut d, &info);
    while d.len() % 8 != 0 {
        d.push(0);
    }
    let sh_off = d.len();
    d.extend_from_slice(&vec![0u8; 6 * 64]);
    put64(&mut d, 40, sh_off as u64);
    put16(&mut d, 58, 6);
    put16(&mut d, 62, 1);
    shdr(&mut d, sh_off + 64, 1, 3, 0, str_off as u64, strtab.len() as u64, 0, 0);
    shdr(&mut d, sh_off + 128, 2, 2, 0, sym_off as u64, 48, 0, 24);
    shdr(&mut d, sh_off + 192, 3, 1, 3 << 20, text_off as u64, 8, 0x20 << 24, 0);
    shdr(&mut d, sh_off + 256, 4, 1, 0, const_off as u64, 4, 0, 0);
    let info_type = if with_info { 0x7000_0000 } else { 8 };
    shdr(&mut d, sh_off + 320, 5, info_type, 0, info_off as u64, 16, 0, 0);
    d
}

#[test]
fn little_endian_reads() {
    let d = vec![0x01, 0x02, 0x03, 0x04, 0x05, 0x06, 0x07, 0x08];
    assert_eq!(read_u16(&d, 0), 0x0201);
    assert_eq!(read_u32(&d, 2), 0x0605_0403);
    assert_eq!(read_u64(&d, 0), 0x0807_0605_0403_0201);
}

#[test]
fn words_are_little_endian() {
    let d = vec![1, 0, 0, 0, 2, 0, 0, 0, 9];
    assert_eq!(words_of(&d), vec![1, 2]);
}

#[test]
fn hex_words() {
    assert_eq!(hex32(255), "0x000000ff");
    assert_eq!(hex32(0xdeadbeef), "0xdeadbeef");
}

#[test]
fn param_section_without_attributes() {
    let words = vec![0x00080a04u32, 0, 0x10, 0];
    let p = extract_param_sec(&words).expect("readable");
    assert_eq!(p.len(), 3);
    match p.get("ParamData") {
        Some(ParamVal::Data(d)) => assert_eq!(d, &words),
        _ => panic!("ParamData"),
    }
    match p.get("StaticParams") {
        Some(ParamVal::Data(d)) => assert_eq!(d, &vec![0x00080a04u32, 0, 0x10]),
        _ => panic!("StaticParams"),
    }
    match p.get("ParamHex") {
        Some(ParamVal::Hex(h)) => assert_eq!(h[0], "0x00080a04"),
        _ => panic!("ParamHex"),
    }
}

#[test]
fn param_section_without_delimiter() {
    assert!(extract_param_sec(&vec![1, 2, 3]).is_none());
    assert!(extract_param_sec(&vec![]).is_none());
}

#[test]
fn short_file_has_no_header() {
    assert!(read_header(&vec![0u8; 20]).is_none());
    assert!(matches!(Cubin::new(&vec![0u8; 20]), Err(CubinError::BadClass)));
}

#[test]
fn unknown_type_is_refused() {
    let mut d = vec![0u8; 64];
    put16(&mut d, 16, 3);
    assert!(matches!(Cubin::new(&d), Err(CubinError::BadClass)));
}

#[test]
fn cubin_with_one_kernel() {
    let d = sample_cubin(0x02, true);
    let c = Cubin::new(&d).expect("a readable cubin");
    assert_eq!(c.class, 64);
    assert_eq!(c.arch, 0x32);
    assert_eq!(c.addr_size, 64);
    assert_eq!(c.sec_hdrs.len(), 6);
    assert_eq!(c.prg_hdrs.len(), 0);
    assert_eq!(c.sections.len(), 6);
    assert!(matches!(c.sections.get(".symtab"), Some(SecHdr::SymTab(_, _))));
    match c.sections.get(".shstrtab") {
        Some(SecHdr::StrTab(t, _)) => {
            assert_eq!(t[1], ".shstrtab");
            assert_eq!(t[6], "k");
        }
        _ => panic!("string table"),
    }
    assert_eq!(c.symbols.len(), 1);
    assert!(c.symbols.contains_key("k"));
    let k = c.kernels.get("k").expect("kernel k");
    assert_eq!(k.name, "k");
    assert_eq!(k.linkage, SymBind::Local);
    assert_eq!(k.bar_cnt, 3);
    assert_eq!(k.reg_cnt, 0x20);
    assert_eq!(k.shared_size, 0);
    assert!(k.shared_sec.is_none());
    assert_eq!(k.data, vec![1, 2, 3, 4, 5, 6, 7, 8]);
    assert!(matches!(&k.constant_sec, SecHdr::Other(1, b) if b == &vec![9, 9, 9, 9]));
    assert_eq!(k.param_sec.as_ref().map(|p| p.len()), Some(3));
}

#[test]
fn global_function_is_only_a_symbol() {
    let d = sample_cubin(0x12, true);
    let c = Cubin::new(&d).expect("a readable cubin");
    assert!(c.symbols.contains_key("k"));
    assert_eq!(c.kernels.len(), 0);
}

#[test]
fn info_section_without_bytes_is_refused() {
    let d = sample_cubin(0x02, false);
    assert!(matches!(Cubin::new(&d), Err(CubinError::BadKernelSection)));
}

#[test]
fn bad_binding_is_refused() {
    let d = sample_cubin(0x42, true);
    assert!(matches!(Cubin::new(&d), Err(CubinError::BadBinding)));
}

#[test]
fn truncated_section_table_is_refused() {
    let mut d = sample_cubin(0x02, true);
    let n = d.len();
    d.truncate(n - 10);
    assert!(matches!(Cubin::new(&d), Err(CubinError::Truncated)));
}

#[test]
fn symbol_fields_and_bindings() {
    let s = sassas::cubin::Sym { st_name: 5, st_value: 0, st_size: 0, st_info: 0x12, st_other: 0, st_shndx: 3 };
    let e = ElfSymbol::Sym64(s);
    assert_eq!(e.name(), 5);
    assert_eq!(e.shndx(), 3);
    assert_eq!(e.info(), 0x12);
    assert_eq!(binding(0x02), Some(SymBind::Local));
    assert_eq!(binding(0x12), Some(SymBind::Global));
    assert_eq!(binding(0x22), Some(SymBind::Weak));
    assert_eq!(binding(0x32), None);
    assert_eq!(SymBind::default(), SymBind::Empty);
}

#[test]
fn param_section_with_attribute_keeps_words() {
    let words = vec![0x00080a04u32, 0, 0x10, 0, 0x00081b03, 1, 2];
    let p = extract_param_sec(&words).expect("readable");
    assert_eq!(p.len(), 4);
    match p.get("MAXREG_COUNT") {
        Some(ParamVal::Size(s)) => assert_eq!(*s, 8),
        _ => panic!("MAXREG_COUNT"),
    }
    match p.get("ParamData") {
        Some(ParamVal::Data(d)) => assert_eq!(d, &words),
        _ => panic!("ParamData"),
    }
    match p.get("ParamHex") {
        Some(ParamVal::Hex(h)) => assert_eq!(h.len(), words.len()),
        _ => panic!("ParamHex"),
    }
}

#[test]
fn param_section_attribute_past_the_end() {
    assert!(extract_param_sec(&vec![0x00080a04u32, 0, 0x10, 0, 0x00101b03, 1]).is_none());
}

fn get64(d: &[u8], o: usize) -> u64 {
    let mut b = [0u8; 8];
    b.copy_from_slice(&d[o..o + 8]);
    u64::from_le_bytes(b)
}

/// The offset of section header `i` of a sample cubin.
fn sec_at(d: &[u8], i: usize) -> usize {
    get64(d, 40) as usize + 64 * i
}

#[test]
fn string_table_that_is_not_text() {
    let mut d = sample_cubin(0x02, true);
    let str_off = get64(&d, sec_at(&d, 1) + 24) as usize;
    d[str_off + 1] = 0xff;
    assert!(matches!(Cubin::new(&d), Err(CubinError::BadText)));
}

#[test]
fn symbol_table_with_entry_size_zero() {
    let mut d = sample_cubin(0x02, true);
    let o = sec_at(&d, 2) + 56;
    put64(&mut d, o, 0);
    assert!(matches!(Cubin::new(&d), Err(CubinError::ZeroEntrySize)));
}

#[test]
fn header_names_no_string_table() {
    let mut d = sample_cubin(0x02, true);
    put16(&mut d, 62, 2);
    assert!(matches!(Cubin::new(&d), Err(CubinError::NoStrTab)));
}

#[test]
fn section_name_past_the_strings() {
    let mut d = sample_cubin(0x02, true);
    let o = sec_at(&d, 4);
    put32(&mut d, o, 99);
    assert!(matches!(Cubin::new(&d), Err(CubinError::BadName)));
}

#[test]
fn no_symbol_table_section() {
    let mut d = sample_cubin(0x02, true);
    let o = sec_at(&d, 2);
    put32(&mut d, o, 3);
    assert!(matches!(Cubin::new(&d), Err(CubinError::NoSymTab)));
}

#[test]
fn symbol_of_a_missing_section() {
    let mut d = sample_cubin(0x02, true);
    let sym_off = get64(&d, sec_at(&d, 2) + 24) as usize;
    put16(&mut d, sym_off + 24 + 6, 50);
    assert!(matches!(Cubin::new(&d), Err(CubinError::BadSymbol)));
}

#[test]
fn kernel_without_constant_section() {
    let mut d = sample_cubin(0x02, true);
    let o = sec_at(&d, 4);
    put32(&mut d, o, 0);
    assert!(matches!(Cubin::new(&d), Err(CubinError::NoConstantSection)));
}

#[test]
fn kernel_with_unreadable_parameters() {
    let mut d = sample_cubin(0x02, true);
    let info_off = get64(&d, sec_at(&d, 5) + 24) as usize;
    put32(&mut d, info_off, 0);
    assert!(matches!(Cubin::new(&d), Err(CubinError::BadParamSection)));
}

#[test]
fn kernel_without_info_section_is_no_kernel() {
    let mut d = sample_cubin(0x02, true);
    let o = sec_at(&d, 5);
    put32(&mut d, o, 0);
    let c = Cubin::new(&d).expect("readable");
    assert!(c.symbols.contains_key("k"));
    assert_eq!(c.kernels.len(), 0);
}
