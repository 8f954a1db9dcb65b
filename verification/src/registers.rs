//! Register names of an instruction: a mapped register's name, and the
//! registers of a 64- or 128-bit vector operand.
use vstd::prelude::*;

use crate::mut_map::MutStrMap;
use crate::sassas::{RegMap, RegSpec, RegVal, regs_view, strings_view, vectors_view};
use crate::text::{
    dec_chars, dec_string, law_parse_dec_string, parse_u64_chars, push_chars, push_str, spec_parse_u64,
    string_from_chars,
};
use crate::utils::{first_group, first_group_of, regex_matches, spec_regex_matches};

verus! {

/// A register written by its number.
pub const REG_NUM_RE: &'static str = r"^R(\d+)$";

/// Why a vector operand's registers cannot be named.
#[derive(Clone, Copy, PartialEq, Eq, Structural, Debug)]
pub enum RegLookupError {
    /// A field of the instruction that the lookup reads is missing.
    MissingField,
    /// The register pattern does not compile.
    BadPattern,
    /// A register number that does not parse, or whose successors do not fit
    /// in 64 bits.
    BadNumber,
    /// A register that is not a vector of the width needed.
    NotAVector,
}

/// The name that the register mapping gives `regname`: the register it is
/// mapped to, or `regname` itself where it is not mapped; `None` for a
/// register mapped to a list of numbers (an automatic register, which has no
/// name yet).
pub open spec fn spec_reg_num(regs: Map<Seq<char>, RegSpec>, regname: Seq<char>) -> Option<Seq<char>> {
    if regs.contains_key(regname) {
        match regs[regname] {
            RegSpec::Name(s) => Some(s),
            RegSpec::Nums(_) => None,
        }
    } else {
        Some(regname)
    }
}

/// The name of the register `regname` (see `spec_reg_num`).
pub fn get_reg_num(regmap: &RegMap, regname: &str) -> (r: Option<String>)
    ensures
        match r {
            Some(s) => spec_reg_num(regs_view(regmap.regs@), regname@) == Some(s@),
            None => spec_reg_num(regs_view(regmap.regs@), regname@) is None,
        },
{
    match regmap.regs.get(regname) {
        Some(RegVal::Name(s)) => Some(s.clone()),
        Some(RegVal::Nums(_)) => None,
        None => Some(regname.to_string()),
    }
}

/// The number of a register written `R<number>`: `Ok(None)` for one written
/// otherwise.
pub open spec fn reg_number(name: Seq<char>) -> Result<Option<u64>, RegLookupError> {
    match spec_regex_matches(REG_NUM_RE@, name) {
        None => Err(RegLookupError::BadPattern),
        Some(ms) => if ms.len() == 0 {
            Ok(None)
        } else {
            match first_group(spec_regex_matches(REG_NUM_RE@, name), 1) {
                None => Err(RegLookupError::BadNumber),
                Some(t) => match spec_parse_u64(t) {
                    None => Err(RegLookupError::BadNumber),
                    Some(n) => Ok(Some(n)),
                },
            }
        },
    }
}

/// The registers `R<n>`, `R<n+1>`, ..., `count` of them, one after the
/// other.
pub open spec fn reg_run(n: nat, count: nat) -> Seq<char>
    decreases count,
{
    if count == 0 {
        Seq::empty()
    } else {
        reg_run(n, (count - 1) as nat) + seq!['R'] + dec_string((n + count - 1) as nat)
    }
}

/// The registers of the vector operand `r0` of an instruction with fields
/// `cap`: none without `r0` or for `RZ`; for a 64-bit operand (type `.64`
/// or field `131w4` `0x3`) a numbered register and the next, or the first
/// two registers of its vector; for a 128-bit one (`.128` or `0xf`) a
/// numbered register and the three after it, or the register itself when it
/// names a vector; any other register itself.
pub open spec fn spec_vec_registers(
    vectors: Map<Seq<char>, Seq<Seq<char>>>,
    cap: Map<Seq<char>, Seq<char>>,
) -> Result<Option<Seq<char>>, RegLookupError> {
    if !cap.contains_key("r0"@) {
        Ok(None)
    } else {
        let r = cap["r0"@];
        if r == "RZ"@ {
            Ok(None)
        } else if !cap.contains_key("type"@) || (cap["type"@] != ".64"@ && !cap.contains_key(
            "131w4"@,
        )) {
            Err(RegLookupError::MissingField)
        } else if cap["type"@] == ".64"@ || cap["131w4"@] == "0x3"@ {
            match reg_number(r) {
                Err(e) => Err(e),
                Ok(Some(n)) => if n + 1 > u64::MAX {
                    Err(RegLookupError::BadNumber)
                } else {
                    Ok(Some(reg_run(n as nat, 2)))
                },
                Ok(None) => if !vectors.contains_key(r) || vectors[r].len() < 2 {
                    Err(RegLookupError::NotAVector)
                } else {
                    Ok(Some(vectors[r][0] + vectors[r][1]))
                },
            }
        } else if cap["type"@] != ".128"@ && !cap.contains_key("131w4"@) {
            Err(RegLookupError::MissingField)
        } else if cap["type"@] == ".128"@ || cap["131w4"@] == "0xf"@ {
            match reg_number(r) {
                Err(e) => Err(e),
                Ok(Some(n)) => if n + 3 > u64::MAX {
                    Err(RegLookupError::BadNumber)
                } else {
                    Ok(Some(reg_run(n as nat, 4)))
                },
                Ok(None) => if !vectors.contains_key(r) {
                    Err(RegLookupError::NotAVector)
                } else {
                    Ok(Some(r))
                },
            }
        } else {
            Ok(Some(r))
        }
    }
}

/// A 64-bit vector operand (type `.64`, or field `131w4` equal to `0x3`
/// whatever the type) written `R<n>`, the register pattern reading the
/// decimal text of `n`, names the register pair `R<n>R<n+1>`.
pub proof fn law_vec_pair(vectors: Map<Seq<char>, Seq<Seq<char>>>, cap: Map<Seq<char>, Seq<char>>, n: u64)
    requires
        cap.contains_key("r0"@),
        cap["r0"@] != "RZ"@,
        cap.contains_key("type"@),
        cap["type"@] == ".64"@ || (cap.contains_key("131w4"@) && cap["131w4"@] == "0x3"@),
        n < u64::MAX,
    ensures
        first_group(spec_regex_matches(REG_NUM_RE@, cap["r0"@]), 1) == Some(dec_string(n as nat))
            ==> spec_vec_registers(vectors, cap) == Ok::<Option<Seq<char>>, RegLookupError>(
            Some(seq!['R'] + dec_string(n as nat) + seq!['R'] + dec_string(n as nat + 1)),
        ),
{
    law_parse_dec_string(n);
    reveal_with_fuel(reg_run, 3);
    assert(reg_run(n as nat, 2) =~= seq!['R'] + dec_string(n as nat) + seq!['R'] + dec_string(n as nat + 1));
}

/// A 128-bit vector operand (type `.128`, or field `131w4` equal to `0xf`
/// where the operand is not 64-bit) written `R<n>`, the register pattern
/// reading the decimal text of `n`, names the four registers `R<n>` to
/// `R<n+3>`.
pub proof fn law_vec_quad(vectors: Map<Seq<char>, Seq<Seq<char>>>, cap: Map<Seq<char>, Seq<char>>, n: u64)
    requires
        cap.contains_key("r0"@),
        cap["r0"@] != "RZ"@,
        cap.contains_key("type"@),
        cap.contains_key("131w4"@),
        cap["type"@] != ".64"@,
        cap["131w4"@] != "0x3"@,
        cap["type"@] == ".128"@ || cap["131w4"@] == "0xf"@,
        n + 3 <= u64::MAX,
    ensures
        first_group(spec_regex_matches(REG_NUM_RE@, cap["r0"@]), 1) == Some(dec_string(n as nat))
            ==> spec_vec_registers(vectors, cap) == Ok::<Option<Seq<char>>, RegLookupError>(
            Some(
                seq!['R'] + dec_string(n as nat) + seq!['R'] + dec_string(n as nat + 1) + seq!['R']
                    + dec_string(n as nat + 2) + seq!['R'] + dec_string(n as nat + 3),
            ),
        ),
{
    law_parse_dec_string(n);
    reveal_with_fuel(reg_run, 5);
    assert(reg_run(n as nat, 4) =~= seq!['R'] + dec_string(n as nat) + seq!['R'] + dec_string(n as nat + 1)
        + seq!['R'] + dec_string(n as nat + 2) + seq!['R'] + dec_string(n as nat + 3));
}

/// An address operand `r8` other than `RZ` names itself without the field
/// `E`; with it, written `R<n>` (the register pattern reading the decimal
/// text of `n`), it names the pair `R<n>R<n+1>`.
pub proof fn law_addr_pair(vectors: Map<Seq<char>, Seq<Seq<char>>>, cap: Map<Seq<char>, Seq<char>>, n: u64)
    requires
        cap.contains_key("r8"@),
        cap["r8"@] != "RZ"@,
        n < u64::MAX,
    ensures
        !cap.contains_key("E"@) ==> spec_addr_vec_registers(vectors, cap) == Ok::<
            Option<Seq<char>>,
            RegLookupError,
        >(Some(cap["r8"@])),
        cap.contains_key("E"@) && first_group(spec_regex_matches(REG_NUM_RE@, cap["r8"@]), 1) == Some(
            dec_string(n as nat),
        ) ==> spec_addr_vec_registers(vectors, cap) == Ok::<Option<Seq<char>>, RegLookupError>(
            Some(seq!['R'] + dec_string(n as nat) + seq!['R'] + dec_string(n as nat + 1)),
        ),
{
    law_parse_dec_string(n);
    reveal_with_fuel(reg_run, 3);
    assert(reg_run(n as nat, 2) =~= seq!['R'] + dec_string(n as nat) + seq!['R'] + dec_string(n as nat + 1));
}

/// The registers of the address operand `r8` of an instruction with fields
/// `cap`: none without `r8` or for `RZ`; the register itself without the
/// field `E`; else a numbered register and the next, or the first register
/// of its vector.
pub open spec fn spec_addr_vec_registers(
    vectors: Map<Seq<char>, Seq<Seq<char>>>,
    cap: Map<Seq<char>, Seq<char>>,
) -> Result<Option<Seq<char>>, RegLookupError> {
    if !cap.contains_key("r8"@) {
        Ok(None)
    } else {
        let r = cap["r8"@];
        if r == "RZ"@ {
            Ok(None)
        } else if !cap.contains_key("E"@) {
            Ok(Some(r))
        } else {
            match reg_number(r) {
                Err(e) => Err(e),
                Ok(Some(n)) => if n + 1 > u64::MAX {
                    Err(RegLookupError::BadNumber)
                } else {
                    Ok(Some(reg_run(n as nat, 2)))
                },
                Ok(None) => if !vectors.contains_key(r) || vectors[r].len() < 1 {
                    Err(RegLookupError::NotAVector)
                } else {
                    Ok(Some(vectors[r][0]))
                },
            }
        }
    }
}

/// The number of the register `name` (see `reg_number`).
fn reg_number_exec(name: &str) -> (r: Result<Option<u64>, RegLookupError>)
    ensures
        r == reg_number(name@),
{
    let m = regex_matches(REG_NUM_RE, name);
    let n = match &m {
        None => return Err(RegLookupError::BadPattern),
        Some(ms) => ms.len(),
    };
    if n == 0 {
        return Ok(None);
    }
    let t = match first_group_of(&m, 1) {
        None => return Err(RegLookupError::BadNumber),
        Some(t) => t,
    };
    match parse_u64_chars(&t) {
        None => Err(RegLookupError::BadNumber),
        Some(v) => Ok(Some(v)),
    }
}

/// `count` registers from `R<n>` on (see `reg_run`).
fn reg_run_exec(n: u64, count: u64) -> (r: String)
    requires
        n + count <= u64::MAX + 1,
    ensures
        r@ == reg_run(n as nat, count as nat),
{
    let mut v: Vec<char> = Vec::new();
    let mut k: u64 = 0;
    while k < count
        invariant
            k <= count,
            n + count <= u64::MAX + 1,
            v@ == reg_run(n as nat, k as nat),
        decreases count - k,
    {
        v.push('R');
        let d = dec_chars(n + k);
        push_chars(&mut v, &d);
        k = k + 1;
        assert(v@ =~= reg_run(n as nat, k as nat));
    }
    string_from_chars(&v)
}

/// Two strings one after the other.
fn concat2(a: &String, b: &String) -> (r: String)
    ensures
        r@ == a@ + b@,
{
    let mut v: Vec<char> = Vec::new();
    push_str(&mut v, a.as_str());
    push_str(&mut v, b.as_str());
    string_from_chars(&v)
}

/// Whether the field `key` of `cap` is `want`.
fn field_is(cap: &MutStrMap<String>, key: &str, want: &str) -> (r: bool)
    requires
        cap@.contains_key(key@),
    ensures
        r == (cap@[key@]@ == want@),
{
    crate::sassas_grammar::str_eq(cap.index(key).as_str(), want)
}

/// The registers of the vector operand `r0` (see `spec_vec_registers`).
pub fn get_vec_registers(vectors: &MutStrMap<Vec<String>>, cap_data: &MutStrMap<String>) -> (r: Result<
    Option<String>,
    RegLookupError,
>)
    ensures
        ({
            let want = spec_vec_registers(vectors_view(vectors@), strings_view(cap_data@));
            match r {
                Ok(Some(s)) => want == Ok::<Option<Seq<char>>, RegLookupError>(Some(s@)),
                Ok(None) => want == Ok::<Option<Seq<char>>, RegLookupError>(None),
                Err(e) => want == Err::<Option<Seq<char>>, RegLookupError>(e),
            }
        }),
{
    let ghost vv = vectors_view(vectors@);
    let ghost cv = strings_view(cap_data@);
    let regname = match cap_data.get("r0") {
        None => return Ok(None),
        Some(r) => r.clone(),
    };
    assert(cv["r0"@] == regname@);
    if crate::sassas_grammar::str_eq(regname.as_str(), "RZ") {
        return Ok(None);
    }
    if !cap_data.contains_key("type") {
        return Err(RegLookupError::MissingField);
    }
    let t64 = field_is(cap_data, "type", ".64");
    if !t64 && !cap_data.contains_key("131w4") {
        return Err(RegLookupError::MissingField);
    }
    if t64 || field_is(cap_data, "131w4", "0x3") {
        match reg_number_exec(regname.as_str()) {
            Err(e) => return Err(e),
            Ok(Some(n)) => {
                if n == u64::MAX {
                    return Err(RegLookupError::BadNumber);
                }
                return Ok(Some(reg_run_exec(n, 2)));
            },
            Ok(None) => {
                match vectors.get(regname.as_str()) {
                    None => return Err(RegLookupError::NotAVector),
                    Some(reg) => {
                        if reg.len() < 2 {
                            return Err(RegLookupError::NotAVector);
                        }
                        assert(vv[regname@][0] == reg[0]@ && vv[regname@][1] == reg[1]@);
                        return Ok(Some(concat2(&reg[0], &reg[1])));
                    },
                }
            },
        }
    }
    let t128 = field_is(cap_data, "type", ".128");
    if !t128 && !cap_data.contains_key("131w4") {
        return Err(RegLookupError::MissingField);
    }
    if t128 || field_is(cap_data, "131w4", "0xf") {
        match reg_number_exec(regname.as_str()) {
            Err(e) => return Err(e),
            Ok(Some(n)) => {
                if n > u64::MAX - 3 {
                    return Err(RegLookupError::BadNumber);
                }
                return Ok(Some(reg_run_exec(n, 4)));
            },
            Ok(None) => {
                if !vectors.contains_key(regname.as_str()) {
                    return Err(RegLookupError::NotAVector);
                }
            },
        }
    }
    Ok(Some(regname))
}

/// The registers of the address operand `r8` (see
/// `spec_addr_vec_registers`).
pub fn get_addr_vec_registers(vectors: &MutStrMap<Vec<String>>, cap_data: &MutStrMap<String>) -> (r: Result<
    Option<String>,
    RegLookupError,
>)
    ensures
        ({
            let want = spec_addr_vec_registers(vectors_view(vectors@), strings_view(cap_data@));
            match r {
                Ok(Some(s)) => want == Ok::<Option<Seq<char>>, RegLookupError>(Some(s@)),
                Ok(None) => want == Ok::<Option<Seq<char>>, RegLookupError>(None),
                Err(e) => want == Err::<Option<Seq<char>>, RegLookupError>(e),
            }
        }),
{
    let ghost vv = vectors_view(vectors@);
    let ghost cv = strings_view(cap_data@);
    let regname = match cap_data.get("r8") {
        None => return Ok(None),
        Some(r) => r.clone(),
    };
    assert(cv["r8"@] == regname@);
    if crate::sassas_grammar::str_eq(regname.as_str(), "RZ") {
        return Ok(None);
    }
    if !cap_data.contains_key("E") {
        return Ok(Some(regname));
    }
    match reg_number_exec(regname.as_str()) {
        Err(e) => Err(e),
        Ok(Some(n)) => {
            if n == u64::MAX {
                return Err(RegLookupError::BadNumber);
            }
            Ok(Some(reg_run_exec(n, 2)))
        },
        Ok(None) => match vectors.get(regname.as_str()) {
            None => Err(RegLookupError::NotAVector),
            Some(reg) => {
                if reg.len() < 1 {
                    return Err(RegLookupError::NotAVector);
                }
                assert(vv[regname@][0] == reg[0]@);
                Ok(Some(reg[0].clone()))
            },
        },
    }
}

} // verus!
