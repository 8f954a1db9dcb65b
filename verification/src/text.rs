//! Text helpers: characters of a string, decimal parsing, and decimal and
//! hexadecimal formatting of unsigned integers.
use vstd::prelude::*;
use vstd::string::*;

verus! {

/// `Iterator::collect` of the characters `cs` into a `String`: the string
/// of exactly these characters, in order.
#[verifier::external_body]
pub(crate) fn string_from_chars(cs: &Vec<char>) -> (s: String)
    ensures
        s@ == cs@,
{
    cs.iter().collect::<String>()
}

/// The characters of `s`.
pub fn chars_of(s: &str) -> (v: Vec<char>)
    ensures
        v@ == s@,
{
    let n = s.unicode_len();
    let mut v: Vec<char> = Vec::new();
    let mut i: usize = 0;
    while i < n
        invariant
            n == s@.len(),
            i <= n,
            v@ == s@.take(i as int),
        decreases n - i,
    {
        v.push(s.get_char(i));
        i = i + 1;
        assert(v@ =~= s@.take(i as int));
    }
    assert(s@.take(n as int) =~= s@);
    v
}

pub open spec fn is_dec_digit(c: char) -> bool {
    '0' <= c && c <= '9'
}

pub open spec fn digit_val(c: char) -> nat {
    (c as int - '0' as int) as nat
}

pub open spec fn all_dec_digits(s: Seq<char>) -> bool {
    forall|i: int| 0 <= i < s.len() ==> is_dec_digit(#[trigger] s[i])
}

/// The number a sequence of decimal digits spells.
pub open spec fn dec_value(s: Seq<char>) -> nat
    decreases s.len(),
{
    if s.len() == 0 {
        0
    } else {
        dec_value(s.drop_last()) * 10 + digit_val(s.last())
    }
}

/// What `u64::from_str` gives for `s`: an optional `+` followed by at least
/// one decimal digit, the value fitting in 64 bits.
pub open spec fn spec_parse_u64(s: Seq<char>) -> Option<u64> {
    let d = if s.len() > 0 && s[0] == '+' {
        s.drop_first()
    } else {
        s
    };
    if d.len() > 0 && all_dec_digits(d) && dec_value(d) <= u64::MAX {
        Some(dec_value(d) as u64)
    } else {
        None
    }
}

/// Parses `s` as `u64::from_str` does.
pub fn parse_u64(s: &str) -> (r: Option<u64>)
    ensures
        r == spec_parse_u64(s@),
{
    let cs = chars_of(s);
    let start: usize = if cs.len() > 0 && cs[0] == '+' {
        1
    } else {
        0
    };
    let ghost d = if s@.len() > 0 && s@[0] == '+' {
        s@.drop_first()
    } else {
        s@
    };
    assert(d =~= cs@.subrange(start as int, cs@.len() as int));
    if start >= cs.len() {
        return None;
    }
    let mut acc: u64 = 0;
    let mut i: usize = start;
    while i < cs.len()
        invariant
            start <= i <= cs@.len(),
            cs@ == s@,
            d == (if s@.len() > 0 && s@[0] == '+' {
                s@.drop_first()
            } else {
                s@
            }),
            d =~= cs@.subrange(start as int, cs@.len() as int),
            all_dec_digits(cs@.subrange(start as int, i as int)),
            acc as nat == dec_value(cs@.subrange(start as int, i as int)),
        decreases cs@.len() - i,
    {
        let c = cs[i];
        let ghost pre = cs@.subrange(start as int, i as int);
        let ghost next = cs@.subrange(start as int, i + 1);
        assert(next.drop_last() =~= pre);
        if !('0' <= c && c <= '9') {
            proof {
                let k: int = i as int - start as int;
                assert(d[k] == c);
                assert(!is_dec_digit(d[k]));
            }
            return None;
        }
        let dv = (c as u32 - '0' as u32) as u64;
        if acc > (u64::MAX - dv) / 10 {
            proof {
                assert(dec_value(next) == acc * 10 + dv);
                assert(acc * 10 + dv > u64::MAX) by (nonlinear_arith)
                    requires
                        acc > (u64::MAX - dv) / 10,
                        dv <= 9,
                ;
                if all_dec_digits(d) {
                    lemma_dec_value_prefix_mono(d, (i + 1 - start) as int);
                    assert(d.subrange(0, (i + 1 - start) as int) =~= next);
                }
            }
            return None;
        }
        assert(acc * 10 + dv <= u64::MAX) by (nonlinear_arith)
            requires
                acc <= (u64::MAX - dv) / 10,
                dv <= 9,
        ;
        acc = acc * 10 + dv;
        i = i + 1;
    }
    proof {
        assert(cs@.subrange(start as int, cs@.len() as int) =~= d);
    }
    Some(acc)
}

/// A longer prefix of digits never spells a smaller number.
pub proof fn lemma_dec_value_prefix_mono(s: Seq<char>, n: int)
    requires
        0 <= n <= s.len(),
        all_dec_digits(s),
    ensures
        dec_value(s.subrange(0, n)) <= dec_value(s),
    decreases s.len(),
{
    if n < s.len() {
        lemma_dec_value_prefix_mono(s.drop_last(), n);
        assert(s.drop_last().subrange(0, n) =~= s.subrange(0, n));
        assert(is_dec_digit(s[s.len() - 1]));
    } else {
        assert(s.subrange(0, n) =~= s);
    }
}

/// The lowercase hexadecimal digit for `d < 16`.
pub open spec fn hex_digit(d: nat) -> char {
    if d < 10 {
        ('0' as u8 + d) as char
    } else {
        ('a' as u8 + (d - 10)) as char
    }
}

/// Decimal digits of `n`, without leading zeros (`"0"` for zero).
pub open spec fn dec_string(n: nat) -> Seq<char>
    decreases n,
{
    if n < 10 {
        seq![hex_digit(n)]
    } else {
        dec_string(n / 10).push(hex_digit(n % 10))
    }
}

/// Lowercase hexadecimal digits of `n`, without leading zeros (`"0"` for
/// zero), as `{:x}` formats it.
pub open spec fn hex_string(n: nat) -> Seq<char>
    decreases n,
{
    if n < 16 {
        seq![hex_digit(n)]
    } else {
        hex_string(n / 16).push(hex_digit(n % 16))
    }
}

/// `s` padded on the left with `c` to at least `width` characters.
pub open spec fn pad_left(s: Seq<char>, width: nat, c: char) -> Seq<char> {
    if s.len() >= width {
        s
    } else {
        Seq::new((width - s.len()) as nat, |i: int| c) + s
    }
}

fn digits_of(n: u64, base: u64) -> (v: Vec<char>)
    requires
        base == 10 || base == 16,
    ensures
        base == 10 ==> v@ == dec_string(n as nat),
        base == 16 ==> v@ == hex_string(n as nat),
    decreases n,
{
    let d = n % base;
    let c: char = if d < 10 {
        ((48u8 + d as u8) as char)
    } else {
        ((97u8 + (d - 10) as u8) as char)
    };
    proof {
        assert(c == hex_digit(d as nat));
    }
    if n < base {
        let mut v = Vec::new();
        v.push(c);
        assert(v@ =~= seq![hex_digit(n as nat)]);
        v
    } else {
        let mut v = digits_of(n / base, base);
        v.push(c);
        v
    }
}

/// `n` in decimal, as `{}` formats it.
pub fn dec_chars(n: u64) -> (v: Vec<char>)
    ensures
        v@ == dec_string(n as nat),
{
    digits_of(n, 10)
}

/// `n` in lowercase hexadecimal padded on the left with `pad` to `width`,
/// as `{:0w$x}` (pad `'0'`) or `{:w$x}` (pad `' '`) formats it.
pub fn hex_chars(n: u64, width: usize, pad: char) -> (v: Vec<char>)
    ensures
        v@ == pad_left(hex_string(n as nat), width as nat, pad),
{
    let digits = digits_of(n, 16);
    if digits.len() >= width {
        return digits;
    }
    let mut v: Vec<char> = Vec::new();
    let fill = width - digits.len();
    let mut i: usize = 0;
    while i < fill
        invariant
            i <= fill,
            v@ == Seq::new(i as nat, |j: int| pad),
        decreases fill - i,
    {
        v.push(pad);
        i = i + 1;
        assert(v@ =~= Seq::new(i as nat, |j: int| pad));
    }
    let mut j: usize = 0;
    while j < digits.len()
        invariant
            j <= digits@.len(),
            v@ == Seq::new(fill as nat, |k: int| pad) + digits@.take(j as int),
        decreases digits@.len() - j,
    {
        v.push(digits[j]);
        j = j + 1;
        assert(v@ =~= Seq::new(fill as nat, |k: int| pad) + digits@.take(j as int));
    }
    assert(digits@.take(digits@.len() as int) =~= digits@);
    v
}

/// Appends the characters of `s` to `v`.
pub fn push_str(v: &mut Vec<char>, s: &str)
    ensures
        final(v)@ == old(v)@ + s@,
{
    let cs = chars_of(s);
    let mut i: usize = 0;
    let ghost start = v@;
    while i < cs.len()
        invariant
            i <= cs@.len(),
            cs@ == s@,
            v@ == start + cs@.take(i as int),
        decreases cs@.len() - i,
    {
        v.push(cs[i]);
        i = i + 1;
        assert(v@ =~= start + cs@.take(i as int));
    }
    assert(cs@.take(cs@.len() as int) =~= cs@);
}

/// Appends the characters of `s` to `v`.
pub fn push_chars(v: &mut Vec<char>, s: &Vec<char>)
    ensures
        final(v)@ == old(v)@ + s@,
{
    let mut i: usize = 0;
    let ghost start = v@;
    while i < s.len()
        invariant
            i <= s@.len(),
            v@ == start + s@.take(i as int),
        decreases s@.len() - i,
    {
        v.push(s[i]);
        i = i + 1;
        assert(v@ =~= start + s@.take(i as int));
    }
    assert(s@.take(s@.len() as int) =~= s@);
}

/// The pieces of `s` between occurrences of `sep`, as `str::split` (or
/// `slice::split`) with a single separator gives them: at least one piece,
/// possibly empty.
pub open spec fn split_on<A>(s: Seq<A>, sep: A) -> Seq<Seq<A>>
    decreases s.len(),
{
    if s.len() == 0 {
        seq![Seq::<A>::empty()]
    } else {
        let p = split_on(s.drop_last(), sep);
        if s.last() == sep {
            p.push(Seq::<A>::empty())
        } else {
            p.update(p.len() - 1, p.last().push(s.last()))
        }
    }
}

/// Splitting always gives at least one piece.
pub proof fn lemma_split_on_nonempty<A>(s: Seq<A>, sep: A)
    ensures
        split_on(s, sep).len() >= 1,
    decreases s.len(),
{
    if s.len() > 0 {
        lemma_split_on_nonempty(s.drop_last(), sep);
    }
}

/// `s` split at every `sep` byte, as `slice::split` gives it.
pub fn split_bytes(s: &Vec<u8>, sep: u8) -> (r: Vec<Vec<u8>>)
    ensures
        r.deep_view() == split_on(s@, sep),
        r.len() >= 1,
{
    let mut r: Vec<Vec<u8>> = Vec::new();
    let mut cur: Vec<u8> = Vec::new();
    let mut i: usize = 0;
    while i < s.len()
        invariant
            i <= s@.len(),
            r.deep_view().push(cur@) == split_on(s@.take(i as int), sep),
        decreases s@.len() - i,
    {
        let c = s[i];
        proof {
            assert(s@.take(i + 1).drop_last() =~= s@.take(i as int));
            lemma_split_on_nonempty(s@.take(i as int), sep);
        }
        if c == sep {
            let ghost dv0 = r.deep_view();
            let ghost cv = cur@;
            assert(cur.deep_view() =~= cur@);
            let done = cur;
            r.push(done);
            assert(r.deep_view() =~= dv0.push(cv));
            cur = Vec::new();
            proof {
                assert(r.deep_view().push(cur@) =~= split_on(s@.take(i as int), sep).push(
                    Seq::<u8>::empty(),
                ));
            }
        } else {
            let ghost before = r.deep_view().push(cur@);
            cur.push(c);
            proof {
                assert(r.deep_view().push(cur@) =~= before.update(
                    before.len() - 1,
                    before.last().push(c),
                ));
            }
        }
        i = i + 1;
    }
    let ghost dv0 = r.deep_view();
    let ghost cv = cur@;
    assert(cur.deep_view() =~= cur@);
    r.push(cur);
    assert(r.deep_view() =~= dv0.push(cv));
    proof {
        assert(s@.take(s@.len() as int) =~= s@);
    }
    r
}

/// What `String::from_utf8` gives for the bytes `b`: the text they encode,
/// or `None` where they are not well-formed UTF-8.
pub uninterp spec fn utf8_decode(b: Seq<u8>) -> Option<Seq<char>>;

/// `String::from_utf8`: the text that `b` encodes as UTF-8, `None` where
/// the bytes are not well-formed UTF-8. Its contract names the result
/// (`utf8_decode`) and says nothing more of it.
#[verifier::external_body]
pub(crate) fn string_from_utf8(b: Vec<u8>) -> (r: Option<String>)
    ensures
        match r {
            Some(s) => utf8_decode(b@) == Some(s@),
            None => utf8_decode(b@) is None,
        },
{
    String::from_utf8(b).ok()
}

/// `s` split at every `sep`, as `str::split` with a character separator.
pub fn split_chars(s: &Vec<char>, sep: char) -> (r: Vec<Vec<char>>)
    ensures
        r.deep_view() == split_on(s@, sep),
        r.len() >= 1,
{
    let mut r: Vec<Vec<char>> = Vec::new();
    let mut cur: Vec<char> = Vec::new();
    let mut i: usize = 0;
    while i < s.len()
        invariant
            i <= s@.len(),
            r.deep_view().push(cur@) == split_on(s@.take(i as int), sep),
        decreases s@.len() - i,
    {
        let c = s[i];
        proof {
            assert(s@.take(i + 1).drop_last() =~= s@.take(i as int));
            lemma_split_on_nonempty(s@.take(i as int), sep);
        }
        if c == sep {
            let ghost dv0 = r.deep_view();
            let ghost cv = cur@;
            assert(cur.deep_view() =~= cur@);
            let done = cur;
            r.push(done);
            assert(r.deep_view() =~= dv0.push(cv));
            cur = Vec::new();
            proof {
                assert(r.deep_view().push(cur@) =~= split_on(s@.take(i as int), sep).push(
                    Seq::<char>::empty(),
                ));
            }
        } else {
            let ghost before = r.deep_view().push(cur@);
            cur.push(c);
            proof {
                assert(r.deep_view().push(cur@) =~= before.update(
                    before.len() - 1,
                    before.last().push(c),
                ));
            }
        }
        i = i + 1;
    }
    let ghost dv0 = r.deep_view();
    let ghost cv = cur@;
    assert(cur.deep_view() =~= cur@);
    r.push(cur);
    assert(r.deep_view() =~= dv0.push(cv));
    proof {
        assert(s@.take(s@.len() as int) =~= s@);
    }
    r
}

/// `s` split at every `sep`, as `str::split` with a character separator.
pub fn split_str(s: &str, sep: char) -> (r: Vec<Vec<char>>)
    ensures
        r.deep_view() == split_on(s@, sep),
        r.len() >= 1,
{
    let cs = chars_of(s);
    split_chars(&cs, sep)
}

/// Whether two character sequences are equal.
pub fn chars_eq(a: &Vec<char>, b: &Vec<char>) -> (r: bool)
    ensures
        r == (a@ == b@),
{
    if a.len() != b.len() {
        return false;
    }
    let mut i: usize = 0;
    while i < a.len()
        invariant
            i <= a@.len(),
            a@.len() == b@.len(),
            a@.take(i as int) == b@.take(i as int),
        decreases a@.len() - i,
    {
        if a[i] != b[i] {
            assert(a@[i as int] != b@[i as int]);
            return false;
        }
        i = i + 1;
        assert(a@.take(i as int) =~= b@.take(i as int)) by {
            assert(a@.take(i - 1) == b@.take(i - 1));
        }
    }
    assert(a@ =~= a@.take(a@.len() as int));
    assert(b@ =~= b@.take(b@.len() as int));
    true
}

/// Whether the characters `a` spell the text `b`.
pub fn chars_eq_str(a: &Vec<char>, b: &str) -> (r: bool)
    ensures
        r == (a@ == b@),
{
    let bc = chars_of(b);
    chars_eq(a, &bc)
}

/// Parses the characters `s` as `u64::from_str` does.
pub fn parse_u64_chars(s: &Vec<char>) -> (r: Option<u64>)
    ensures
        r == spec_parse_u64(s@),
{
    let st = string_from_chars(s);
    parse_u64(st.as_str())
}


proof fn lemma_dec_string_digits(n: nat)
    ensures
        dec_string(n).len() > 0,
        all_dec_digits(dec_string(n)),
        dec_value(dec_string(n)) == n,
    decreases n,
{
    let d = (n % 10) as nat;
    assert(d < 10);
    let c = hex_digit(d);
    assert(c == ('0' as u8 + d) as char);
    assert(is_dec_digit(c) && digit_val(c) == d);
    if n < 10 {
        assert(dec_string(n) =~= seq![c]);
        assert(dec_string(n).drop_last() =~= Seq::<char>::empty());
        assert(dec_value(dec_string(n)) == dec_value(Seq::<char>::empty()) * 10 + d);
    } else {
        lemma_dec_string_digits(n / 10);
        let s = dec_string(n / 10);
        assert(dec_string(n) == s.push(c));
        assert(dec_string(n).drop_last() =~= s);
        assert(dec_value(dec_string(n)) == dec_value(s) * 10 + d);
        assert((n / 10) * 10 + n % 10 == n) by (nonlinear_arith);
        assert forall|i: int| 0 <= i < dec_string(n).len() implies is_dec_digit(#[trigger] dec_string(n)[i]) by {
            if i < s.len() {
                assert(dec_string(n)[i] == s[i]);
            }
        }
    }
}

/// Reading the decimal text of a number gives the number back.
pub proof fn law_parse_dec_string(n: u64)
    ensures
        spec_parse_u64(dec_string(n as nat)) == Some(n),
{
    lemma_dec_string_digits(n as nat);
    assert(is_dec_digit(dec_string(n as nat)[0]));
}

} // verus!
