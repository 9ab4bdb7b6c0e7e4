//! Character-level string utilities shared by the link and command parsers.

use vstd::prelude::*;

use crate::numfmt::is_dec_digit;

verus! {

/// `p` is a prefix of `s`.
pub open spec fn has_prefix(s: Seq<char>, p: Seq<char>) -> bool {
    s.len() >= p.len() && s.take(p.len() as int) == p
}

/// Compares two strings character by character.
pub fn str_eq(a: &str, b: &str) -> (r: bool)
    ensures
        r == (a@ == b@),
{
    let an = a.unicode_len();
    let bn = b.unicode_len();
    if an != bn {
        return false;
    }
    let mut i: usize = 0;
    while i < an
        invariant
            0 <= i <= an,
            an == a@.len(),
            an == b@.len(),
            forall|k: int| 0 <= k < i ==> a@[k] == b@[k],
        decreases an - i,
    {
        if a.get_char(i) != b.get_char(i) {
            return false;
        }
        i = i + 1;
    }
    proof {
        assert(a@ =~= b@);
    }
    true
}

/// Strips `p` off the front of `s`, or reports that `s` does not start
/// with it.
pub fn strip_prefix_str<'a>(s: &'a str, p: &str) -> (r: Option<&'a str>)
    ensures
        match r {
            Some(rest) => has_prefix(s@, p@) && rest@ == s@.skip(p@.len() as int),
            None => !has_prefix(s@, p@),
        },
{
    let sn = s.unicode_len();
    let pn = p.unicode_len();
    if sn < pn {
        return None;
    }
    let mut i: usize = 0;
    while i < pn
        invariant
            0 <= i <= pn,
            pn == p@.len(),
            sn == s@.len(),
            pn <= sn,
            forall|k: int| 0 <= k < i ==> s@[k] == p@[k],
        decreases pn - i,
    {
        if s.get_char(i) != p.get_char(i) {
            proof {
                assert(s@.take(pn as int)[i as int] != p@[i as int]);
            }
            return None;
        }
        i = i + 1;
    }
    let rest = s.substring_char(pn, sn);
    proof {
        assert(s@.take(pn as int) =~= p@);
        assert(rest@ =~= s@.skip(pn as int));
    }
    Some(rest)
}

/// The character classes the link grammars are built from.
#[derive(Debug, Clone, Copy, PartialEq, Eq, Structural)]
pub enum CharClass {
    /// ASCII letters.
    Alpha,
    /// ASCII decimal digits.
    Digit,
    /// ASCII letters, digits and `-`.
    AlnumDash,
    /// Whitespace, by the Unicode White_Space property.
    Space,
    /// Anything but whitespace.
    NonSpace,
}

/// Is `c` whitespace? The set is the Unicode White_Space property, the
/// class ordinary word splitting goes by.
pub open spec fn is_space_char(c: char) -> bool {
    (9 <= c as u32 <= 13) || c as u32 == 32 || c as u32 == 133 || c as u32 == 160 || c as u32
        == 0x1680 || (0x2000 <= c as u32 <= 0x200A) || c as u32 == 0x2028 || c as u32 == 0x2029
        || c as u32 == 0x202F || c as u32 == 0x205F || c as u32 == 0x3000
}

/// Does `c` belong to class `k`?
pub open spec fn in_class(k: CharClass, c: char) -> bool {
    match k {
        CharClass::Alpha => (65 <= c as u32 <= 90) || (97 <= c as u32 <= 122),
        CharClass::Digit => is_dec_digit(c),
        CharClass::AlnumDash => (65 <= c as u32 <= 90) || (97 <= c as u32 <= 122)
            || is_dec_digit(c) || c == '-',
        CharClass::Space => is_space_char(c),
        CharClass::NonSpace => !is_space_char(c),
    }
}

/// Decides membership in a character class.
pub fn check_class(k: CharClass, c: char) -> (r: bool)
    ensures
        r == in_class(k, c),
{
    let u = c as u32;
    match k {
        CharClass::Alpha => (65 <= u && u <= 90) || (97 <= u && u <= 122),
        CharClass::Digit => 48 <= u && u <= 57,
        CharClass::AlnumDash => (65 <= u && u <= 90) || (97 <= u && u <= 122) || (48 <= u && u
            <= 57) || c == '-',
        CharClass::Space => check_space(c),
        CharClass::NonSpace => !check_space(c),
    }
}

/// Decides the Unicode White_Space property.
fn check_space(c: char) -> (r: bool)
    ensures
        r == is_space_char(c),
{
    let u = c as u32;
    (9 <= u && u <= 13) || u == 32 || u == 133 || u == 160 || u == 0x1680 || (0x2000 <= u && u
        <= 0x200A) || u == 0x2028 || u == 0x2029 || u == 0x202F || u == 0x205F || u == 0x3000
}

/// Length of the maximal run of class-`k` characters at the front of `s`.
pub open spec fn run_len(s: Seq<char>, k: CharClass) -> int
    decreases s.len(),
{
    if s.len() > 0 && in_class(k, s[0]) {
        1 + run_len(s.skip(1), k)
    } else {
        0
    }
}

/// The run length is bounded by the string and everything in the run is in
/// the class, while the first character past it is not.
pub proof fn lemma_run_len(s: Seq<char>, k: CharClass)
    ensures
        0 <= run_len(s, k) <= s.len(),
        forall|i: int| 0 <= i < run_len(s, k) ==> in_class(k, #[trigger] s[i]),
        run_len(s, k) < s.len() ==> !in_class(k, s[run_len(s, k)]),
    decreases s.len(),
{
    if s.len() > 0 && in_class(k, s[0]) {
        lemma_run_len(s.skip(1), k);
        assert forall|i: int| 0 <= i < run_len(s, k) implies in_class(k, #[trigger] s[i]) by {
            if i > 0 {
                assert(s.skip(1)[i - 1] == s[i]);
            }
        }
        if run_len(s, k) < s.len() {
            assert(s.skip(1)[run_len(s, k) - 1] == s[run_len(s, k)]);
        }
    }
}

/// Scans the maximal run of class-`k` characters starting at `from`.
pub fn scan_run(s: &str, from: usize, k: CharClass) -> (r: usize)
    requires
        from <= s@.len(),
    ensures
        from + r <= s@.len(),
        r == run_len(s@.skip(from as int), k),
{
    let n = s.unicode_len();
    let mut i: usize = from;
    while i < n && check_class(k, s.get_char(i))
        invariant
            from <= i <= n,
            n == s@.len(),
            run_len(s@.skip(from as int), k) == (i - from) + run_len(s@.skip(i as int), k),
            forall|q: int| from <= q < i ==> in_class(k, #[trigger] s@[q]),
        decreases n - i,
    {
        proof {
            assert(s@.skip(i as int)[0] == s@[i as int]);
            assert(s@.skip(i as int).skip(1) =~= s@.skip(i as int + 1));
        }
        i = i + 1;
    }
    proof {
        if i < n {
            assert(s@.skip(i as int)[0] == s@[i as int]);
            assert(run_len(s@.skip(i as int), k) == 0);
        } else {
            assert(s@.skip(i as int).len() == 0);
            assert(run_len(s@.skip(i as int), k) == 0);
        }
    }
    i - from
}

/// `s` with an optional `https://` or `http://` scheme removed.
pub open spec fn strip_scheme_spec(s: Seq<char>) -> Seq<char> {
    if has_prefix(s, "https://"@) {
        s.skip("https://"@.len() as int)
    } else if has_prefix(s, "http://"@) {
        s.skip("http://"@.len() as int)
    } else {
        s
    }
}

/// Removes a leading URL scheme if one is present.
pub fn strip_scheme(s: &str) -> (r: &str)
    ensures
        r@ == strip_scheme_spec(s@),
{
    if let Some(rest) = strip_prefix_str(s, "https://") {
        rest
    } else if let Some(rest) = strip_prefix_str(s, "http://") {
        rest
    } else {
        s
    }
}

/// Does character `c` occur in `s` at or after position `from`?
pub fn contains_char_from(s: &str, from: usize, c: char) -> (r: bool)
    requires
        from <= s@.len(),
    ensures
        r == exists|k: int| from <= k < s@.len() && s@[k] == c,
{
    let n = s.unicode_len();
    let mut i: usize = from;
    while i < n
        invariant
            from <= i <= n,
            n == s@.len(),
            forall|k: int| from <= k < i ==> s@[k] != c,
        decreases n - i,
    {
        if s.get_char(i) == c {
            return true;
        }
        i = i + 1;
    }
    false
}

/// `s` with every occurrence of `pat` replaced by `rep`, scanning left to
/// right without overlap. A pattern of length zero leaves `s` unchanged.
pub open spec fn spec_replace(s: Seq<char>, pat: Seq<char>, rep: Seq<char>) -> Seq<char>
    decreases s.len(),
{
    if pat.len() == 0 || s.len() == 0 {
        s
    } else if has_prefix(s, pat) {
        rep + spec_replace(s.skip(pat.len() as int), pat, rep)
    } else {
        seq![s[0]] + spec_replace(s.skip(1), pat, rep)
    }
}

/// Does `pat` occur in `s` at position `i`?
pub fn has_prefix_at(s: &str, i: usize, pat: &str) -> (r: bool)
    requires
        i <= s@.len(),
    ensures
        r == has_prefix(s@.skip(i as int), pat@),
{
    let n = s.unicode_len();
    let m = pat.unicode_len();
    if m > n - i {
        return false;
    }
    let seg = s.substring_char(i, i + m);
    proof {
        assert(seg@ =~= s@.skip(i as int).take(m as int));
        if seg@ == pat@ {
            assert(has_prefix(s@.skip(i as int), pat@));
        }
    }
    str_eq(seg, pat)
}

/// Replaces every occurrence of `pat` in `s` by `rep`, left to right.
pub fn replace_str(s: &str, pat: &str, rep: &str) -> (r: String)
    requires
        pat@.len() > 0,
    ensures
        r@ == spec_replace(s@, pat@, rep@),
{
    let n = s.unicode_len();
    let m = pat.unicode_len();
    let mut out = String::new();
    let mut i: usize = 0;
    proof {
        assert(s@.skip(0) =~= s@);
        assert(out@ + spec_replace(s@, pat@, rep@) =~= spec_replace(s@, pat@, rep@));
    }
    while i < n
        invariant
            0 <= i <= n,
            n == s@.len(),
            m == pat@.len(),
            m > 0,
            spec_replace(s@, pat@, rep@) == out@ + spec_replace(s@.skip(i as int), pat@, rep@),
        decreases n - i,
    {
        let ghost pre = out@;
        if has_prefix_at(s, i, pat) {
            out.append(rep);
            proof {
                assert(s@.skip(i as int).skip(m as int) =~= s@.skip(i + m));
                assert(pre + spec_replace(s@.skip(i as int), pat@, rep@) =~= out@ + spec_replace(
                    s@.skip(i + m),
                    pat@,
                    rep@,
                ));
            }
            proof {
                assert(s@.skip(i as int).len() >= m);
            }
            i = i + m;
        } else {
            let one = s.substring_char(i, i + 1);
            out.append(one);
            proof {
                assert(s@.skip(i as int)[0] == s@[i as int]);
                assert(one@ =~= seq![s@.skip(i as int)[0]]);
                assert(s@.skip(i as int).skip(1) =~= s@.skip(i + 1));
                assert(pre + spec_replace(s@.skip(i as int), pat@, rep@) =~= out@ + spec_replace(
                    s@.skip(i + 1),
                    pat@,
                    rep@,
                ));
            }
            i = i + 1;
        }
    }
    proof {
        assert(s@.skip(n as int).len() == 0);
        assert(spec_replace(s@, pat@, rep@) =~= out@);
    }
    out
}

/// `pat` occurs somewhere in `s` (anywhere, including the empty pattern).
pub open spec fn contains_seq(s: Seq<char>, pat: Seq<char>) -> bool {
    exists|i: int| 0 <= i <= s.len() - pat.len() && #[trigger] s.subrange(i, i + pat.len()) == pat
}

/// Searches `s` for an occurrence of `pat`.
pub fn contains_sub(s: &str, pat: &str) -> (r: bool)
    ensures
        r == contains_seq(s@, pat@),
{
    let n = s.unicode_len();
    let m = pat.unicode_len();
    if m > n {
        proof {
            if contains_seq(s@, pat@) {
                let i = choose|i: int|
                    0 <= i <= s@.len() - pat@.len() && #[trigger] s@.subrange(i, i + pat@.len())
                        == pat@;
                assert(false);
            }
        }
        return false;
    }
    if m == 0 {
        proof {
            assert(s@.subrange(0, 0 + pat@.len() as int) =~= pat@);
            assert(contains_seq(s@, pat@));
        }
        return true;
    }
    let mut i: usize = 0;
    while i <= n - m
        invariant
            0 <= i <= n - m + 1,
            1 <= m <= n,
            n == s@.len(),
            m == pat@.len(),
            forall|q: int| 0 <= q < i ==> #[trigger] s@.subrange(q, q + pat@.len()) != pat@,
        decreases n + 1 - i,
    {
        if has_prefix_at(s, i, pat) {
            proof {
                assert(s@.subrange(i as int, i + pat@.len()) =~= s@.skip(i as int).take(
                    pat@.len() as int,
                ));
            }
            return true;
        }
        proof {
            assert(s@.skip(i as int).take(pat@.len() as int) =~= s@.subrange(
                i as int,
                i + pat@.len(),
            ));
        }
        i = i + 1;
    }
    false
}

/// The view of an optional owned string.
pub open spec fn opt_str_view(o: Option<String>) -> Option<Seq<char>> {
    match o {
        Some(s) => Some(s@),
        None => None,
    }
}

/// The whitespace-separated words of `s`, in order.
pub open spec fn spec_tokens(s: Seq<char>) -> Seq<Seq<char>>
    decreases s.len(),
    via spec_tokens_decreases
{
    if s.len() == 0 {
        Seq::empty()
    } else if in_class(CharClass::Space, s[0]) {
        spec_tokens(s.skip(1))
    } else {
        seq![s.take(run_len(s, CharClass::NonSpace))] + spec_tokens(
            s.skip(run_len(s, CharClass::NonSpace)),
        )
    }
}

#[via_fn]
proof fn spec_tokens_decreases(s: Seq<char>) {
    lemma_run_len(s, CharClass::NonSpace);
}

/// Splits `s` into its whitespace-separated words.
pub fn tokenize(s: &str) -> (r: Vec<&str>)
    ensures
        r@.map_values(|t: &str| t@) == spec_tokens(s@),
{
    let n = s.unicode_len();
    let mut acc: Vec<&str> = Vec::new();
    let mut i: usize = 0;
    proof {
        assert(s@.skip(0) =~= s@);
        assert(acc@.map_values(|t: &str| t@) =~= Seq::<Seq<char>>::empty());
    }
    while i < n
        invariant
            0 <= i <= n,
            n == s@.len(),
            spec_tokens(s@) == acc@.map_values(|t: &str| t@) + spec_tokens(s@.skip(i as int)),
        decreases n - i,
    {
        let ghost pre = acc@;
        let c = s.get_char(i);
        if check_class(CharClass::Space, c) {
            proof {
                assert(s@.skip(i as int)[0] == s@[i as int]);
                assert(s@.skip(i as int).skip(1) =~= s@.skip(i as int + 1));
            }
            i = i + 1;
        } else {
            let w = scan_run(s, i, CharClass::NonSpace);
            proof {
                assert(s@.skip(i as int)[0] == s@[i as int]);
                lemma_run_len(s@.skip(i as int), CharClass::NonSpace);
            }
            let word = s.substring_char(i, i + w);
            acc.push(word);
            proof {
                let rest = s@.skip(i as int);
                assert(word@ =~= rest.take(run_len(rest, CharClass::NonSpace)));
                assert(rest.skip(run_len(rest, CharClass::NonSpace)) =~= s@.skip(i + w));
                assert(acc@.map_values(|t: &str| t@) =~= pre.map_values(|t: &str| t@).push(
                    word@,
                ));
                assert(pre.map_values(|t: &str| t@) + spec_tokens(s@.skip(i as int)) =~= acc@
                    .map_values(|t: &str| t@) + spec_tokens(s@.skip(i + w)));
            }
            i = i + w;
        }
    }
    proof {
        assert(s@.skip(n as int).len() == 0);
        assert(spec_tokens(s@) =~= acc@.map_values(|t: &str| t@));
    }
    acc
}

} // verus!
