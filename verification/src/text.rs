//! Character-level helpers shared by the other modules: converting between
//! strings and character vectors, and rendering integers in decimal.

use vstd::prelude::*;

verus! {

broadcast use vstd::string::group_string_axioms;

/// `String::push` appends one character.
pub assume_specification[ std::string::String::push ](s: &mut std::string::String, ch: char)
    ensures
        final(s)@ == old(s)@.push(ch),
;

/// The characters of `s`, in order.
pub fn chars_of(s: &str) -> (r: Vec<char>)
    ensures
        r@ == s@,
{
    let mut out: Vec<char> = Vec::new();
    for c in it: s.chars()
        invariant
            out@ == it.seq().take(it.index() as int),
            it.seq() == s@,
    {
        out.push(c);
    }
    out
}

/// The string made of the characters of `cs`.
pub fn string_of(cs: &Vec<char>) -> (r: String)
    ensures
        r@ == cs@,
{
    let mut out = String::new();
    let mut i: usize = 0;
    while i < cs.len()
        invariant
            i <= cs.len(),
            out@ == cs@.take(i as int),
        decreases cs.len() - i,
    {
        out.push(cs[i]);
        i = i + 1;
        assert(out@ == cs@.take(i as int));
    }
    assert(cs@.take(cs.len() as int) == cs@);
    out
}

/// The decimal digit character for `d < 10`.
pub open spec fn digit_char(d: nat) -> char {
    if d == 0 { '0' }
    else if d == 1 { '1' }
    else if d == 2 { '2' }
    else if d == 3 { '3' }
    else if d == 4 { '4' }
    else if d == 5 { '5' }
    else if d == 6 { '6' }
    else if d == 7 { '7' }
    else if d == 8 { '8' }
    else { '9' }
}

/// The decimal digits of a natural number, most significant first, with no
/// leading zero.
pub open spec fn nat_digits(n: nat) -> Seq<char>
    decreases n,
{
    if n < 10 {
        seq![digit_char(n)]
    } else {
        nat_digits(n / 10).push(digit_char(n % 10))
    }
}

/// How `Display` renders an integer: an optional minus sign, then the
/// decimal digits of its magnitude.
pub open spec fn decimal(n: int) -> Seq<char> {
    if n < 0 {
        seq!['-'] + nat_digits((-n) as nat)
    } else {
        nat_digits(n as nat)
    }
}

fn digit(d: u64) -> (c: char)
    requires
        d < 10,
    ensures
        c == digit_char(d as nat),
{
    if d == 0 { '0' }
    else if d == 1 { '1' }
    else if d == 2 { '2' }
    else if d == 3 { '3' }
    else if d == 4 { '4' }
    else if d == 5 { '5' }
    else if d == 6 { '6' }
    else if d == 7 { '7' }
    else if d == 8 { '8' }
    else { '9' }
}

fn push_digits(out: &mut String, n: u64)
    ensures
        final(out)@ == old(out)@ + nat_digits(n as nat),
    decreases n,
{
    if n >= 10 {
        push_digits(out, n / 10);
    }
    out.push(digit(n % 10));
    proof {
        if n >= 10 {
            assert(old(out)@ + nat_digits(n as nat) == (old(out)@ + nat_digits((n / 10) as nat)).push(digit_char((n % 10) as nat)));
        } else {
            assert(old(out)@ + nat_digits(n as nat) == old(out)@.push(digit_char(n as nat)));
        }
    }
}

/// Appends the decimal rendering of `n` to `out`.
pub fn push_decimal(out: &mut String, n: i64)
    ensures
        final(out)@ == old(out)@ + decimal(n as int),
{
    if n < 0 {
        out.push('-');
        let magnitude: u64 = if n == i64::MIN {
            9223372036854775808u64
        } else {
            (-n) as u64
        };
        push_digits(out, magnitude);
        assert(old(out)@ + decimal(n as int) == old(out)@.push('-') + nat_digits(magnitude as nat));
    } else {
        push_digits(out, n as u64);
    }
}

/// Appends the text of `s` to `out`.
pub fn push_str(out: &mut String, s: &str)
    ensures
        final(out)@ == old(out)@ + s@,
{
    for c in it: s.chars()
        invariant
            out@ == old(out)@ + it.seq().take(it.index() as int),
            it.seq() == s@,
    {
        out.push(c);
    }
    assert(s@.take(s@.len() as int) == s@);
}


/// Whether two string slices hold the same text.
pub fn str_eq(a: &str, b: &str) -> (r: bool)
    ensures
        r == (a@ == b@),
{
    a.to_owned() == b.to_owned()
}

/// A copy of `s`.
pub fn owned(s: &str) -> (r: String)
    ensures
        r@ == s@,
{
    s.to_owned()
}

/// The concatenation of three texts.
pub fn concat3(a: &str, b: &str, c: &str) -> (r: String)
    ensures
        r@ == a@ + b@ + c@,
{
    let mut out = owned(a);
    push_str(&mut out, b);
    push_str(&mut out, c);
    out
}

/// `o.unwrap_or(d)` on texts.
pub open spec fn text_or(o: Option<Seq<char>>, d: Seq<char>) -> Seq<char> {
    match o {
        Some(s) => s,
        None => d,
    }
}

/// `o.filter(|s| !s.is_empty())` on texts.
pub open spec fn non_empty(o: Option<Seq<char>>) -> Option<Seq<char>> {
    match o {
        Some(s) => if s.len() > 0 { Some(s) } else { None },
        None => None,
    }
}

/// `o.filter(|s| !s.is_empty())`.
pub fn filter_non_empty<'a>(o: Option<&'a str>) -> (r: Option<&'a str>)
    ensures
        crate::json::opt_view(r) == non_empty(crate::json::opt_view(o)),
{
    match o {
        Some(s) => if !s.is_empty() { Some(s) } else { None },
        None => None,
    }
}

/// The number a string of decimal digits reads as, most significant digit
/// first: each character counts for its code point minus that of `'0'`.
pub open spec fn digits_value(s: Seq<char>) -> int
    decreases s.len(),
{
    if s.len() == 0 {
        0
    } else {
        digits_value(s.drop_last()) * 10 + ((s[s.len() - 1] as u32) as int - 48)
    }
}

/// The integer a decimal rendering reads as: an optional leading minus sign,
/// then digits.
pub open spec fn signed_value(s: Seq<char>) -> int {
    if s.len() > 0 && s[0] == '-' {
        -digits_value(s.drop_first())
    } else {
        digits_value(s)
    }
}

/// The decimal rendering of a natural number is a non-empty string of the
/// digits `0`-`9` that reads back as that number.
pub proof fn lemma_nat_digits_read_back(n: nat)
    ensures
        nat_digits(n).len() > 0,
        forall|i: int| 0 <= i < nat_digits(n).len() ==> '0' <= #[trigger] nat_digits(n)[i] <= '9',
        digits_value(nat_digits(n)) == n,
    decreases n,
{
    let d = n % 10;
    assert((digit_char(d) as u32) as int == 48 + d);
    if n >= 10 {
        lemma_nat_digits_read_back(n / 10);
        let p = nat_digits(n / 10);
        let ds = nat_digits(n);
        assert(ds.drop_last() == p);
        assert(forall|i: int| 0 <= i < p.len() ==> ds[i] == p[i]);
        assert(digits_value(ds) == digits_value(p) * 10 + d);
        assert(n == (n / 10) * 10 + d) by (nonlinear_arith)
            requires
                d == n % 10,
        ;
    } else {
        assert(nat_digits(n).drop_last() =~= Seq::<char>::empty());
        assert(d == n);
        assert(digits_value(nat_digits(n)) == digits_value(Seq::<char>::empty()) * 10 + d);
    }
}

/// `decimal` is the standard base-10 rendering: it reads back as the
/// number it renders, so two different numbers never render alike.
pub proof fn lemma_decimal_reads_back(n: int, m: int)
    ensures
        signed_value(decimal(n)) == n,
        decimal(n) == decimal(m) ==> n == m,
{
    assert forall|k: int| #[trigger] signed_value(decimal(k)) == k by {
        if k < 0 {
            lemma_nat_digits_read_back((-k) as nat);
            let d = nat_digits((-k) as nat);
            assert((seq!['-'] + d).drop_first() =~= d);
            assert((seq!['-'] + d)[0] == '-');
        } else {
            lemma_nat_digits_read_back(k as nat);
            assert(nat_digits(k as nat)[0] != '-');
        }
    }
    assert(signed_value(decimal(m)) == m);
}

/// Texts of the form `prefix + middle + suffix` are equal only when their
/// middles are.
pub proof fn lemma_same_frame(prefix: Seq<char>, a: Seq<char>, b: Seq<char>, suffix: Seq<char>)
    requires
        prefix + a + suffix == prefix + b + suffix,
    ensures
        a == b,
{
    let x = prefix + a + suffix;
    let y = prefix + b + suffix;
    assert(x.len() == prefix.len() + a.len() + suffix.len());
    assert(y.len() == prefix.len() + b.len() + suffix.len());
    assert(a.len() == b.len());
    assert(x.subrange(prefix.len() as int, (prefix.len() + a.len()) as int) =~= a);
    assert(y.subrange(prefix.len() as int, (prefix.len() + b.len()) as int) =~= b);
}

} // verus!
