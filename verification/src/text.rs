//! String building blocks used by the request and label builders.
use vstd::prelude::*;

verus! {

/// `String::push` appends one character at the end of the string.
pub assume_specification[ String::push ](string: &mut String, ch: char)
    ensures
        final(string)@ == old(string)@.push(ch),
;

/// `String::pop` removes the last character and returns it, or returns `None`
/// on an empty string.
pub assume_specification[ String::pop ](string: &mut String) -> (res: Option<char>)
    ensures
        old(string)@.len() == 0 ==> res is None && final(string)@ == old(string)@,
        old(string)@.len() > 0 ==> res == Some(old(string)@.last()) && final(string)@ == old(
            string,
        )@.drop_last(),
;

/// The characters of `s`, in order.
pub fn chars_of(s: &str) -> (res: Vec<char>)
    ensures
        res@ == s@,
{
    let mut res: Vec<char> = Vec::new();
    for c in it: s.chars()
        invariant
            res@ == it.seq().take(it.index() as int),
    {
        res.push(c);
    }
    res
}


/// The ASCII digit for `d`, which lies in `0..10`.
pub open spec fn digit_char(d: int) -> char {
    (d + 48) as char
}

/// Decimal notation of a natural number, without leading zeros.
pub open spec fn decimal(n: nat) -> Seq<char>
    decreases n,
{
    if n < 10 {
        seq![digit_char(n as int)]
    } else {
        decimal(n / 10).push(digit_char((n % 10) as int))
    }
}

/// Decimal notation of an integer: a minus sign before negative values.
pub open spec fn signed_decimal(i: int) -> Seq<char> {
    if i < 0 {
        seq!['-'] + decimal((-i) as nat)
    } else {
        decimal(i as nat)
    }
}

/// Decimal notation padded with zeros to at least two digits.
pub open spec fn decimal_pad2(n: nat) -> Seq<char> {
    if n < 10 {
        seq!['0'] + decimal(n)
    } else {
        decimal(n)
    }
}

fn digit(d: u64) -> (c: char)
    requires
        d < 10,
    ensures
        c == digit_char(d as int),
{
    let b: u8 = 48u8 + (d as u8);
    b as char
}

/// Decimal notation of `n`, as `n.to_string()` writes it.
pub fn decimal_string(n: u64) -> (res: String)
    ensures
        res@ == decimal(n as nat),
    decreases n,
{
    if n < 10 {
        let mut s = String::new();
        s.push(digit(n));
        s
    } else {
        let mut s = decimal_string(n / 10);
        s.push(digit(n % 10));
        s
    }
}

/// Decimal notation of a signed `n`, as `n.to_string()` writes it.
pub fn signed_decimal_string(n: i32) -> (res: String)
    ensures
        res@ == signed_decimal(n as int),
{
    if n < 0 {
        let magnitude: i64 = -(n as i64);
        let mut s = String::new();
        s.push('-');
        let digits = decimal_string(magnitude as u64);
        s.append(digits.as_str());
        s
    } else {
        decimal_string(n as u64)
    }
}

/// Decimal notation of `n` padded to two digits, as `format!("{:02}", n)` writes it.
pub fn decimal_pad2_string(n: u32) -> (res: String)
    ensures
        res@ == decimal_pad2(n as nat),
{
    let digits = decimal_string(n as u64);
    if n < 10 {
        let mut s = String::new();
        s.push('0');
        s.append(digits.as_str());
        s
    } else {
        digits
    }
}

/// Copies the first `n` characters of a character sequence into a fresh `String`.
pub fn string_from_prefix(cs: &[char], n: usize) -> (res: String)
    requires
        n <= cs@.len(),
    ensures
        res@ == cs@.take(n as int),
{
    let mut res = String::new();
    let mut i: usize = 0;
    while i < n
        invariant
            i <= n <= cs@.len(),
            res@ == cs@.take(i as int),
        decreases n - i,
    {
        res.push(cs[i]);
        i = i + 1;
        assert(cs@.take(i as int) == cs@.take((i - 1) as int).push(cs@[i - 1]));
    }
    res
}

/// Copies a character sequence into a fresh `String`.
pub fn string_from_chars(cs: &[char]) -> (res: String)
    ensures
        res@ == cs@,
{
    let res = string_from_prefix(cs, cs.len());
    assert(cs@.take(cs@.len() as int) == cs@);
    res
}

/// A fresh `String` holding the text of `s`.
pub fn owned(s: &str) -> (res: String)
    ensures
        res@ == s@,
{
    let mut res = String::new();
    res.append(s);
    res
}

/// Whether two texts are the same, character by character.
pub fn same_text(a: &str, b: &str) -> (res: bool)
    ensures
        res == (a@ == b@),
{
    let x = chars_of(a);
    let y = chars_of(b);
    if x.len() != y.len() {
        return false;
    }
    let mut i: usize = 0;
    while i < x.len()
        invariant
            x@ == a@,
            y@ == b@,
            x@.len() == y@.len(),
            i <= x@.len(),
            forall|j: int| 0 <= j < i ==> x@[j] == y@[j],
        decreases x@.len() - i,
    {
        if x[i] != y[i] {
            return false;
        }
        i = i + 1;
    }
    assert(x@ =~= y@);
    true
}

/// Decimal notation has at least one digit, starts with a non-zero digit
/// unless the number is 0, and has exactly two digits from 10 to 99; the
/// padded notation of a number under 100 has exactly two digits.
pub proof fn lemma_decimal_digits(n: nat)
    ensures
        decimal(n).len() >= 1,
        n > 0 ==> decimal(n)[0] != '0',
        10 <= n < 100 ==> decimal(n).len() == 2,
        n < 100 ==> decimal_pad2(n).len() == 2,
    decreases n,
{
    if n >= 10 {
        lemma_decimal_digits(n / 10);
        assert(decimal(n)[0] == decimal(n / 10)[0]);
    }
}

} // verus!
