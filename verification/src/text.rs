//! Character-level helpers shared by the string handling of the library.

use vstd::prelude::*;

verus! {

/// Appends `c` to `s` (`String::push`).
///
/// Trusted: std documents that `push` appends the given `char` to the end
/// of the string; the contract says exactly that of the character view.
#[verifier::external_body]
pub(crate) fn push_char(s: &mut String, c: char)
    ensures
        final(s)@ == old(s)@.push(c),
{
    s.push(c);
}

/// The characters of `s`, in order.
pub fn chars_of(s: &str) -> (v: Vec<char>)
    ensures
        v@ == s@,
{
    let mut v: Vec<char> = Vec::new();
    for c in it: s.chars()
        invariant
            it.seq() == s@,
            v@ == it.seq().take(it.index()),
    {
        v.push(c);
    }
    v
}

/// A string made of the characters of `v`, in order.
pub fn string_of(v: &[char]) -> (s: String)
    ensures
        s@ == v@,
{
    let mut s = String::new();
    let mut i: usize = 0;
    while i < v.len()
        invariant
            i <= v.len(),
            s@ == v@.take(i as int),
        decreases v.len() - i,
    {
        push_char(&mut s, v[i]);
        assert(v@.take(i as int).push(v@[i as int]) =~= v@.take(i + 1));
        i = i + 1;
    }
    assert(v@.take(v.len() as int) =~= v@);
    s
}

/// The decimal digit character for `d` (which is below ten).
pub open spec fn digit_spec(d: nat) -> char {
    if d == 0 { '0' } else if d == 1 { '1' } else if d == 2 { '2' } else if d == 3 { '3' }
    else if d == 4 { '4' } else if d == 5 { '5' } else if d == 6 { '6' } else if d == 7 { '7' }
    else if d == 8 { '8' } else { '9' }
}

/// The decimal representation of `n`, most significant digit first, with
/// no leading zero (zero itself is `"0"`).
pub open spec fn decimal_spec(n: nat) -> Seq<char>
    decreases n,
{
    if n < 10 {
        seq![digit_spec(n)]
    } else {
        decimal_spec(n / 10).push(digit_spec(n % 10))
    }
}

fn digit_char(d: u32) -> (c: char)
    requires
        d < 10,
    ensures
        c == digit_spec(d as nat),
{
    if d == 0 { '0' } else if d == 1 { '1' } else if d == 2 { '2' } else if d == 3 { '3' }
    else if d == 4 { '4' } else if d == 5 { '5' } else if d == 6 { '6' } else if d == 7 { '7' }
    else if d == 8 { '8' } else { '9' }
}

/// Formats `n` in decimal, as `{}` formats an unsigned integer.
pub fn decimal(n: u32) -> (s: String)
    ensures
        s@ == decimal_spec(n as nat),
    decreases n,
{
    if n < 10 {
        let mut s = String::new();
        push_char(&mut s, digit_char(n));
        s
    } else {
        let mut s = decimal(n / 10);
        push_char(&mut s, digit_char(n % 10));
        s
    }
}

/// A string holding the characters of the literal `lit`.
pub fn owned(lit: &str) -> (s: String)
    ensures
        s@ == lit@,
{
    lit.to_owned()
}

} // verus!
