//! Decimal rendering and parsing of unsigned integers.
//!
//! `dec_rep` is the mathematical decimal form of a number, most significant
//! digit first; `dec_val` reads a digit sequence back. They are the shared
//! vocabulary of the status-text builders and the link parsers.

use vstd::prelude::*;

use vstd::arithmetic::div_mod::lemma_fundamental_div_mod;

verus! {

/// Is `c` one of the ten decimal digit characters?
pub open spec fn is_dec_digit(c: char) -> bool {
    48 <= (c as u32) <= 57
}

/// Every character of `s` is a decimal digit.
pub open spec fn all_dec_digits(s: Seq<char>) -> bool {
    forall|i: int| 0 <= i < s.len() ==> is_dec_digit(#[trigger] s[i])
}

/// The numeric value of digit character `c`.
pub open spec fn dec_digit_val(c: char) -> nat {
    ((c as u32) - 48) as nat
}

/// The digit character for value `d`.
pub open spec fn dec_digit_char(d: nat) -> char {
    if d == 0 {
        '0'
    } else if d == 1 {
        '1'
    } else if d == 2 {
        '2'
    } else if d == 3 {
        '3'
    } else if d == 4 {
        '4'
    } else if d == 5 {
        '5'
    } else if d == 6 {
        '6'
    } else if d == 7 {
        '7'
    } else if d == 8 {
        '8'
    } else {
        '9'
    }
}

/// Decimal representation of `n`, most significant digit first, no leading
/// zeros (except for `n == 0` itself).
pub open spec fn dec_rep(n: nat) -> Seq<char>
    decreases n,
{
    if n < 10 {
        seq![dec_digit_char(n)]
    } else {
        dec_rep(n / 10).push(dec_digit_char(n % 10))
    }
}

/// The number a digit sequence denotes, reading left to right.
pub open spec fn dec_val(s: Seq<char>) -> nat
    decreases s.len(),
{
    if s.len() == 0 {
        0
    } else {
        dec_val(s.drop_last()) * 10 + dec_digit_val(s.last())
    }
}

/// The single-character string for digit value `d`.
fn dec_digit_str(d: u64) -> (s: &'static str)
    requires
        d < 10,
    ensures
        s@ == seq![dec_digit_char(d as nat)],
        s@.len() == 1,
{
    let s: &'static str = if d == 0 {
        "0"
    } else if d == 1 {
        "1"
    } else if d == 2 {
        "2"
    } else if d == 3 {
        "3"
    } else if d == 4 {
        "4"
    } else if d == 5 {
        "5"
    } else if d == 6 {
        "6"
    } else if d == 7 {
        "7"
    } else if d == 8 {
        "8"
    } else {
        "9"
    };
    proof {
        reveal_strlit("0");
        reveal_strlit("1");
        reveal_strlit("2");
        reveal_strlit("3");
        reveal_strlit("4");
        reveal_strlit("5");
        reveal_strlit("6");
        reveal_strlit("7");
        reveal_strlit("8");
        reveal_strlit("9");
        assert(s@ =~= seq![dec_digit_char(d as nat)]);
    }
    s
}

/// Renders `n` in decimal.
pub fn u64_to_dec_string(n: u64) -> (s: String)
    ensures
        s@ == dec_rep(n as nat),
    decreases n,
{
    if n < 10 {
        let s = dec_digit_str(n);
        String::from_str(s)
    } else {
        let mut s = u64_to_dec_string(n / 10);
        s.append(dec_digit_str(n % 10));
        proof {
            assert(s@ =~= dec_rep(n as nat));
        }
        s
    }
}

/// `s` left-padded with `'0'` to width `w` (unchanged when already wide
/// enough).
pub open spec fn zero_pad(s: Seq<char>, w: int) -> Seq<char>
    decreases w - s.len(),
{
    if s.len() >= w {
        s
    } else {
        zero_pad(seq!['0'] + s, w)
    }
}

/// Renders `n` in decimal, left-padded with zeros to width 3 — the member
/// numbering that keeps archive entries in lexicographic order.
pub fn u64_to_dec3_string(n: u64) -> (s: String)
    ensures
        s@ == zero_pad(dec_rep(n as nat), 3),
{
    let digits = u64_to_dec_string(n);
    let len = digits.as_str().unicode_len();
    let mut out = if len >= 3 {
        String::new()
    } else if len == 2 {
        String::from_str("0")
    } else {
        String::from_str("00")
    };
    out.append(digits.as_str());
    proof {
        reveal_strlit("0");
        reveal_strlit("00");
        lemma_dec_rep_len(n as nat);
        if len >= 3 {
            assert(out@ =~= zero_pad(dec_rep(n as nat), 3));
        } else if len == 2 {
            assert(out@ =~= seq!['0'] + dec_rep(n as nat));
            assert(zero_pad(dec_rep(n as nat), 3) == zero_pad(seq!['0'] + dec_rep(n as nat), 3));
        } else {
            assert(out@ =~= seq!['0'] + (seq!['0'] + dec_rep(n as nat)));
            assert(zero_pad(dec_rep(n as nat), 3) == zero_pad(seq!['0'] + dec_rep(n as nat), 3));
            assert(zero_pad(seq!['0'] + dec_rep(n as nat), 3) == zero_pad(
                seq!['0'] + (seq!['0'] + dec_rep(n as nat)),
                3,
            ));
        }
    }
    out
}

/// A decimal representation is never empty.
pub proof fn lemma_dec_rep_len(n: nat)
    ensures
        dec_rep(n).len() >= 1,
    decreases n,
{
    if n >= 10 {
        lemma_dec_rep_len(n / 10);
    }
}

/// Extending a digit prefix by one digit multiplies its value by ten and
/// adds the digit.
proof fn lemma_dec_val_step(s: Seq<char>, i: int)
    requires
        0 <= i < s.len(),
    ensures
        dec_val(s.take(i + 1)) == dec_val(s.take(i)) * 10 + dec_digit_val(s[i]),
{
    assert(s.take(i + 1).drop_last() =~= s.take(i));
    assert(s.take(i + 1).last() == s[i]);
}

/// A digit prefix never denotes more than the whole sequence.
proof fn lemma_dec_val_prefix_le(s: Seq<char>, i: int)
    requires
        0 <= i <= s.len(),
    ensures
        dec_val(s.take(i)) <= dec_val(s),
    decreases s.len() - i,
{
    if i == s.len() {
        assert(s.take(i) =~= s);
    } else {
        lemma_dec_val_step(s, i);
        lemma_dec_val_prefix_le(s, i + 1);
    }
}

/// Parses a non-empty, all-digit string as a decimal `u64`; anything else —
/// an empty string, a non-digit character, or a value beyond `u64::MAX` —
/// is rejected.
pub fn parse_u64_dec(s: &str) -> (r: Option<u64>)
    ensures
        match r {
            Some(v) => {
                &&& s@.len() > 0
                &&& all_dec_digits(s@)
                &&& v as nat == dec_val(s@)
            },
            None => s@.len() == 0 || !all_dec_digits(s@) || dec_val(s@) > u64::MAX,
        },
{
    let n = s.unicode_len();
    if n == 0 {
        return None;
    }
    let mut val: u64 = 0;
    let mut i: usize = 0;
    while i < n
        invariant
            0 <= i <= n,
            n == s@.len(),
            all_dec_digits(s@.take(i as int)),
            val as nat == dec_val(s@.take(i as int)),
        decreases n - i,
    {
        let c = s.get_char(i);
        let code = c as u32;
        if code < 48 || code > 57 {
            proof {
                assert(!is_dec_digit(s@[i as int]));
            }
            return None;
        }
        let d = (code - 48) as u64;
        // Would appending this digit overflow a u64?
        if val > (u64::MAX - d) / 10 {
            proof {
                let m = (u64::MAX - d) as int;
                lemma_fundamental_div_mod(m, 10);
                assert(val * 10 + d > u64::MAX) by (nonlinear_arith)
                    requires
                        val > m / 10,
                        m == 10 * (m / 10) + m % 10,
                        0 <= m % 10 < 10,
                        m == u64::MAX - d,
                ;
                lemma_dec_val_step(s@, i as int);
                lemma_dec_val_prefix_le(s@, i as int + 1);
            }
            return None;
        }
        proof {
            let m = (u64::MAX - d) as int;
            lemma_fundamental_div_mod(m, 10);
            assert(val * 10 + d <= u64::MAX) by (nonlinear_arith)
                requires
                    val <= m / 10,
                    m == 10 * (m / 10) + m % 10,
                    0 <= m % 10 < 10,
                    m == u64::MAX - d,
            ;
            lemma_dec_val_step(s@, i as int);
        }
        val = val * 10 + d;
        i = i + 1;
        proof {
            assert(all_dec_digits(s@.take(i as int)));
        }
    }
    proof {
        assert(s@.take(n as int) =~= s@);
    }
    Some(val)
}

} // verus!
