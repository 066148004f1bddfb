//! Redirection of file-system paths inside a sandboxed process: whatever
//! the process opens under the user's profile directory is sent to a
//! private area below it instead.

use crate::text::{chars_of, string_of};
use crate::wide::{decode_u16, decode_utf16_lossy, encode_utf16, text_end, to_wide_nul};
use vstd::prelude::*;

verus! {

/// The directory, below the user's profile, that receives redirected paths.
pub open spec fn boxed_suffix() -> Seq<char> {
    "\\Documents\\BoxedData"@
}

/// `s` with every `from` replaced by `to`.
pub open spec fn replace_char(s: Seq<char>, from: char, to: char) -> Seq<char> {
    s.map_values(|c: char| if c == from { to } else { c })
}

/// `rep` before, between and after the characters of `s`: what
/// `str::replace` makes of `s` when the pattern is empty.
pub open spec fn interleave(s: Seq<char>, rep: Seq<char>) -> Seq<char>
    decreases s.len(),
{
    if s.len() == 0 {
        rep
    } else {
        rep + seq![s[0]] + interleave(s.drop_first(), rep)
    }
}

/// `s` with every occurrence of `pat`, taken from left to right without
/// overlap, replaced by `rep`, as `str::replace` does.
pub open spec fn replace_all(s: Seq<char>, pat: Seq<char>, rep: Seq<char>) -> Seq<char>
    decreases s.len(),
{
    if pat.len() == 0 {
        interleave(s, rep)
    } else if s.len() < pat.len() {
        s
    } else if s.take(pat.len() as int) == pat {
        rep + replace_all(s.skip(pat.len() as int), pat, rep)
    } else {
        seq![s[0]] + replace_all(s.drop_first(), pat, rep)
    }
}

/// Where a path is sent, given the user's profile directory when it is
/// known: forward slashes become backslashes, and a path below the profile
/// directory (and not already in the boxed area) has every occurrence of
/// the profile directory replaced by the boxed area.
pub open spec fn redirected(path: Seq<char>, user: Option<Seq<char>>) -> Seq<char> {
    let p = replace_char(path, '/', '\\');
    match user {
        Some(u) => if u.is_prefix_of(p) && !(u + boxed_suffix()).is_prefix_of(p) {
            replace_all(p, u, u + boxed_suffix())
        } else {
            p
        },
        None => p,
    }
}

/// Whether `s` begins with `p`.
pub fn starts_with(s: &[char], p: &[char]) -> (r: bool)
    ensures
        r == p@.is_prefix_of(s@),
{
    if p.len() > s.len() {
        return false;
    }
    let mut j: usize = 0;
    while j < p.len()
        invariant
            p@.len() <= s@.len(),
            j <= p@.len(),
            forall|k: int| 0 <= k < j ==> p@[k] == s@[k],
        decreases p.len() - j,
    {
        if p[j] != s[j] {
            assert(!(p@ =~= s@.subrange(0, p@.len() as int))) by {
                assert(s@.subrange(0, p@.len() as int)[j as int] == s@[j as int]);
            }
            return false;
        }
        j = j + 1;
    }
    assert(p@ =~= s@.subrange(0, p@.len() as int));
    true
}

/// Whether `pat` occurs in `s` at position `i`.
fn matches_at(s: &Vec<char>, i: usize, pat: &Vec<char>) -> (r: bool)
    requires
        i + pat@.len() <= s@.len(),
    ensures
        r == (s@.subrange(i as int, i + pat@.len()) == pat@),
{
    let sl = s.len();
    let mut j: usize = 0;
    while j < pat.len()
        invariant
            sl == s@.len(),
            i + pat@.len() <= s@.len(),
            j <= pat@.len(),
            forall|k: int| 0 <= k < j ==> pat@[k] == s@[i + k],
        decreases pat.len() - j,
    {
        if pat[j] != s[i + j] {
            assert(s@.subrange(i as int, i + pat@.len())[j as int] == s@[i + j]);
            return false;
        }
        j = j + 1;
    }
    assert(s@.subrange(i as int, i + pat@.len()) =~= pat@);
    true
}

/// Appends the characters of `v` to `out`.
fn extend(out: &mut Vec<char>, v: &Vec<char>)
    ensures
        final(out)@ == old(out)@ + v@,
{
    let mut j: usize = 0;
    while j < v.len()
        invariant
            j <= v@.len(),
            out@ == old(out)@ + v@.take(j as int),
        decreases v.len() - j,
    {
        out.push(v[j]);
        assert(old(out)@ + v@.take(j + 1) =~= old(out)@ + v@.take(j as int) + seq![v@[j as int]]);
        j = j + 1;
    }
    assert(v@.take(v@.len() as int) =~= v@);
}

/// `s` with every occurrence of `pat` replaced by `rep`, left to right.
pub fn replace_all_exec(s: &Vec<char>, pat: &Vec<char>, rep: &Vec<char>) -> (r: Vec<char>)
    ensures
        r@ == replace_all(s@, pat@, rep@),
{
    let n = s.len();
    let m = pat.len();
    let mut out: Vec<char> = Vec::new();
    let mut i: usize = 0;
    assert(s@.skip(0) =~= s@);
    assert(Seq::<char>::empty() + replace_all(s@, pat@, rep@) =~= replace_all(s@, pat@, rep@));
    if m == 0 {
        assert(Seq::<char>::empty() + interleave(s@, rep@) =~= interleave(s@, rep@));
        while i < n
            invariant
                n == s@.len(),
                pat@.len() == 0,
                i <= n,
                replace_all(s@, pat@, rep@) == out@ + interleave(s@.skip(i as int), rep@),
            decreases n - i,
        {
            let ghost rest = s@.skip(i as int);
            assert(rest[0] == s@[i as int]);
            assert(rest.drop_first() =~= s@.skip(i + 1));
            let ghost before = out@;
            extend(&mut out, rep);
            out.push(s[i]);
            assert(before + (rep@ + seq![s@[i as int]] + interleave(s@.skip(i + 1), rep@))
                =~= out@ + interleave(s@.skip(i + 1), rep@));
            i = i + 1;
        }
        assert(s@.skip(n as int) =~= Seq::<char>::empty());
        extend(&mut out, rep);
        return out;
    }
    while i < n && n - i >= m
        invariant
            n == s@.len(),
            m == pat@.len(),
            m > 0,
            i <= n,
            replace_all(s@, pat@, rep@) == out@ + replace_all(s@.skip(i as int), pat@, rep@),
        decreases n - i,
    {
        let ghost rest = s@.skip(i as int);
        assert(rest.take(m as int) =~= s@.subrange(i as int, i + m));
        let ghost before = out@;
        if matches_at(s, i, pat) {
            assert(rest.skip(m as int) =~= s@.skip(i + m));
            extend(&mut out, rep);
            assert(before + (rep@ + replace_all(s@.skip(i + m), pat@, rep@))
                =~= out@ + replace_all(s@.skip(i + m), pat@, rep@));
            i = i + m;
        } else {
            assert(rest[0] == s@[i as int]);
            assert(rest.drop_first() =~= s@.skip(i + 1));
            out.push(s[i]);
            assert(before + (seq![s@[i as int]] + replace_all(s@.skip(i + 1), pat@, rep@))
                =~= out@ + replace_all(s@.skip(i + 1), pat@, rep@));
            i = i + 1;
        }
    }
    let start = i;
    let ghost before = out@;
    assert(s@.skip(start as int).len() < m);
    while i < n
        invariant
            n == s@.len(),
            start <= i <= n,
            out@ == before + s@.subrange(start as int, i as int),
        decreases n - i,
    {
        out.push(s[i]);
        assert(s@.subrange(start as int, i + 1) =~= s@.subrange(start as int, i as int).push(s@[i as int]));
        i = i + 1;
    }
    assert(s@.subrange(start as int, n as int) =~= s@.skip(start as int));
    out
}


/// The characters of an optional string.
pub open spec fn opt_chars(s: Option<String>) -> Option<Seq<char>> {
    match s {
        Some(t) => Some(t@),
        None => None,
    }
}

/// Replaces (and so redirects) a path: forward slashes become
/// backslashes, and a path below the user's profile directory `user` that
/// is not yet in its boxed area is moved there (see [`redirected`]).
/// `user` is `None` when the profile directory is not known.
pub fn replace_path(path: String, user: Option<String>) -> (out: String)
    ensures
        out@ == redirected(path@, opt_chars(user)),
{
    let given = chars_of(path.as_str());
    let mut p: Vec<char> = Vec::new();
    let mut i: usize = 0;
    while i < given.len()
        invariant
            i <= given@.len(),
            p@ == replace_char(given@.take(i as int), '/', '\\'),
        decreases given.len() - i,
    {
        let c = given[i];
        if c == '/' {
            p.push('\\');
        } else {
            p.push(c);
        }
        assert(replace_char(given@.take(i + 1), '/', '\\') =~= p@);
        i = i + 1;
    }
    assert(given@.take(given@.len() as int) =~= given@);
    match user {
        Some(u) => {
            let home = chars_of(u.as_str());
            let mut boxed = chars_of(u.as_str());
            let suffix = chars_of("\\Documents\\BoxedData");
            extend(&mut boxed, &suffix);
            if starts_with(p.as_slice(), home.as_slice()) && !starts_with(p.as_slice(), boxed.as_slice()) {
                let r = replace_all_exec(&p, &home, &boxed);
                string_of(r.as_slice())
            } else {
                string_of(p.as_slice())
            }
        },
        None => string_of(p.as_slice()),
    }
}

/// The wide path that a redirected file-system call passes on: the
/// NUL-terminated text at the start of `name` is decoded, redirected as
/// [`replace_path`] does, and encoded again with its terminator.
pub fn redirect_wide(name: &[u16], user: Option<String>) -> (out: Vec<u16>)
    ensures
        exists|k: int|
            text_end(name@, k) && out@ == encode_utf16(
                redirected(decode_utf16_lossy(name@.take(k)), opt_chars(user)),
            ).push(0),
{
    let path = decode_u16(name);
    let redirected_path = replace_path(path, user);
    to_wide_nul(redirected_path.as_str())
}


/// No character of `s` is `c`.
pub open spec fn lacks(s: Seq<char>, c: char) -> bool {
    forall|i: int| 0 <= i < s.len() ==> s[i] != c
}

proof fn lemma_replace_char_lacks(s: Seq<char>)
    ensures
        lacks(replace_char(s, '/', '\\'), '/'),
        lacks(s, '/') ==> replace_char(s, '/', '\\') == s,
{
    if lacks(s, '/') {
        assert(replace_char(s, '/', '\\') =~= s);
    }
}

proof fn lemma_interleave_lacks(s: Seq<char>, rep: Seq<char>, c: char)
    requires
        lacks(s, c),
        lacks(rep, c),
    ensures
        lacks(interleave(s, rep), c),
    decreases s.len(),
{
    if s.len() > 0 {
        lemma_interleave_lacks(s.drop_first(), rep, c);
        let t = interleave(s.drop_first(), rep);
        assert forall|i: int| 0 <= i < (rep + seq![s[0]] + t).len() implies (rep + seq![s[0]] + t)[i] != c by {
            if i < rep.len() {
            } else if i == rep.len() {
            } else {
                assert((rep + seq![s[0]] + t)[i] == t[i - rep.len() - 1]);
            }
        }
    }
}

proof fn lemma_replace_all_lacks(s: Seq<char>, pat: Seq<char>, rep: Seq<char>, c: char)
    requires
        lacks(s, c),
        lacks(rep, c),
    ensures
        lacks(replace_all(s, pat, rep), c),
    decreases s.len(),
{
    if pat.len() == 0 {
        lemma_interleave_lacks(s, rep, c);
    } else if s.len() < pat.len() {
    } else if s.take(pat.len() as int) == pat {
        let rest = s.skip(pat.len() as int);
        assert(lacks(rest, c)) by {
            assert forall|i: int| 0 <= i < rest.len() implies rest[i] != c by {
                assert(rest[i] == s[i + pat.len()]);
            }
        }
        lemma_replace_all_lacks(rest, pat, rep, c);
        let t = replace_all(rest, pat, rep);
        assert forall|i: int| 0 <= i < (rep + t).len() implies (rep + t)[i] != c by {
            if i >= rep.len() {
                assert((rep + t)[i] == t[i - rep.len()]);
            }
        }
    } else {
        let rest = s.drop_first();
        assert(lacks(rest, c)) by {
            assert forall|i: int| 0 <= i < rest.len() implies rest[i] != c by {
                assert(rest[i] == s[i + 1]);
            }
        }
        lemma_replace_all_lacks(rest, pat, rep, c);
        let t = replace_all(rest, pat, rep);
        assert forall|i: int| 0 <= i < (seq![s[0]] + t).len() implies (seq![s[0]] + t)[i] != c by {
            if i >= 1 {
                assert((seq![s[0]] + t)[i] == t[i - 1]);
            }
        }
    }
}

proof fn lemma_prefix_of_concat(a: Seq<char>, b: Seq<char>)
    ensures
        a.is_prefix_of(a + b),
{
    assert(a =~= (a + b).subrange(0, a.len() as int));
}

proof fn lemma_replace_all_starts_with_rep(s: Seq<char>, pat: Seq<char>, rep: Seq<char>)
    requires
        pat.is_prefix_of(s),
    ensures
        rep.is_prefix_of(replace_all(s, pat, rep)),
{
    if pat.len() == 0 {
        if s.len() == 0 {
            lemma_prefix_of_concat(rep, Seq::empty());
            assert(rep + Seq::<char>::empty() =~= rep);
        } else {
            let t = seq![s[0]] + interleave(s.drop_first(), rep);
            assert(rep + seq![s[0]] + interleave(s.drop_first(), rep) =~= rep + t);
            lemma_prefix_of_concat(rep, t);
        }
    } else {
        assert(s.take(pat.len() as int) =~= pat);
        lemma_prefix_of_concat(rep, replace_all(s.skip(pat.len() as int), pat, rep));
    }
}

/// Redirection is done at most once: redirecting a path that was already
/// redirected leaves it unchanged.
pub proof fn lemma_redirect_idempotent(path: Seq<char>, user: Option<Seq<char>>)
    ensures
        redirected(redirected(path, user), user) == redirected(path, user),
{
    let p = replace_char(path, '/', '\\');
    lemma_replace_char_lacks(path);
    match user {
        Some(u) => {
            let boxed = u + boxed_suffix();
            if u.is_prefix_of(p) && !boxed.is_prefix_of(p) {
                let r = replace_all(p, u, boxed);
                assert(lacks(u, '/')) by {
                    assert forall|i: int| 0 <= i < u.len() implies u[i] != '/' by {
                        assert(u[i] == p.subrange(0, u.len() as int)[i]);
                    }
                }
                reveal_strlit("\\Documents\\BoxedData");
                assert(lacks(boxed, '/')) by {
                    assert forall|i: int| 0 <= i < boxed.len() implies boxed[i] != '/' by {
                        if i >= u.len() {
                            assert(boxed[i] == boxed_suffix()[i - u.len()]);
                        }
                    }
                }
                lemma_replace_all_lacks(p, u, boxed, '/');
                lemma_replace_char_lacks(r);
                lemma_replace_all_starts_with_rep(p, u, boxed);
                assert(u.is_prefix_of(r)) by {
                    lemma_prefix_of_concat(u, boxed_suffix());
                    assert(u =~= r.subrange(0, u.len() as int)) by {
                        assert forall|i: int| 0 <= i < u.len() implies u[i] == r.subrange(0, u.len() as int)[i] by {
                            assert(boxed.subrange(0, u.len() as int)[i] == boxed[i]);
                            assert(r.subrange(0, boxed.len() as int)[i] == r[i]);
                        }
                    }
                }
            } else {
                lemma_replace_char_lacks(p);
            }
        },
        None => {
            lemma_replace_char_lacks(p);
        },
    }
}

} // verus!
