//! String helpers shared by the matcher, the resolver and the parser:
//! character-exact equality, substring search, decimal parsing and
//! decimal formatting, each specified over `Seq<char>` views.

use vstd::prelude::*;
use vstd::string::StrSliceExecFns;
use vstd::string::StringExecFns;

verus! {

/// Character-by-character string equality.
pub fn str_eq(a: &str, b: &str) -> (r: bool)
    ensures
        r == (a@ == b@),
{
    let la = a.unicode_len();
    let lb = b.unicode_len();
    if la != lb {
        return false;
    }
    let mut i: usize = 0;
    while i < la
        invariant
            la == a@.len(),
            la == b@.len(),
            0 <= i <= la,
            forall|k: int| 0 <= k < i ==> a@[k] == b@[k],
        decreases la - i,
    {
        if a.get_char(i) != b.get_char(i) {
            return false;
        }
        i += 1;
    }
    proof {
        assert(a@ =~= b@);
    }
    true
}

/// `needle` occurs as a contiguous run inside `hay`.
pub open spec fn seq_contains_sub(hay: Seq<char>, needle: Seq<char>) -> bool {
    exists|i: int|
        0 <= i && i + needle.len() <= hay.len() && #[trigger] hay.subrange(
            i,
            i + needle.len() as int,
        ) == needle
}

/// Relies on `str::contains`: true iff the pattern string matches a
/// sub-slice of the haystack (an empty pattern matches everywhere).
/// The byte-level sub-slice match coincides with the character-level
/// statement here, because a byte occurrence of one valid UTF-8 string
/// inside another always falls on character boundaries.
#[verifier::external_body]
pub fn str_contains(hay: &str, needle: &str) -> (r: bool)
    ensures
        r == seq_contains_sub(hay@, needle@),
{
    hay.contains(needle)
}

/// The Unicode lowercase form of a string, named here so that contracts
/// can speak of it; only `to_lowercase` below produces it.
pub uninterp spec fn lower_of(s: Seq<char>) -> Seq<char>;

/// Relies on `str::to_lowercase`: the result is a function of the
/// characters of the input alone.
#[verifier::external_body]
pub fn to_lowercase(s: &str) -> (r: String)
    ensures
        r@ == lower_of(s@),
{
    s.to_lowercase()
}

pub open spec fn is_digit(c: char) -> bool {
    48 <= c as u32 && c as u32 <= 57
}

pub open spec fn all_digits(s: Seq<char>) -> bool {
    forall|i: int| 0 <= i < s.len() ==> is_digit(#[trigger] s[i])
}

/// The value of a string of decimal digits.
pub open spec fn dec_uval(s: Seq<char>) -> nat
    decreases s.len(),
{
    if s.len() == 0 {
        0
    } else {
        dec_uval(s.drop_last()) * 10 + (s.last() as u32 - 48) as nat
    }
}

/// The integer denoted by `s`, exactly as `str::parse::<i32>` reads it:
/// an optional single `+` or `-` sign, then one or more decimal digits,
/// nothing else; out-of-range values are rejected.
pub open spec fn spec_parse_i32(s: Seq<char>) -> Option<i32> {
    let neg = s.len() > 0 && s[0] == '-';
    let body = if s.len() > 0 && (s[0] == '-' || s[0] == '+') {
        s.subrange(1, s.len() as int)
    } else {
        s
    };
    if body.len() == 0 || !all_digits(body) {
        None
    } else {
        let v = if neg {
            -(dec_uval(body) as int)
        } else {
            dec_uval(body) as int
        };
        if -2147483648 <= v && v <= 2147483647 {
            Some(v as i32)
        } else {
            None
        }
    }
}

proof fn lemma_dec_uval_grows(s: Seq<char>)
    requires
        s.len() > 0,
    ensures
        dec_uval(s) >= dec_uval(s.drop_last()),
{
}

/// Reads an `i32` from a string, accepting exactly what
/// `str::parse::<i32>` accepts.
pub fn parse_i32(s: &str) -> (r: Option<i32>)
    ensures
        r == spec_parse_i32(s@),
{
    let n = s.unicode_len();
    let mut start: usize = 0;
    let mut neg = false;
    if n > 0 {
        let c0 = s.get_char(0);
        if c0 == '-' || c0 == '+' {
            neg = c0 == '-';
            start = 1;
        }
    }
    if start == n {
        return None;
    }
    let mut mag: u64 = 0;
    let mut over = false;
    let mut j: usize = start;
    while j < n
        invariant
            n == s@.len(),
            start <= j <= n,
            start < n,
            start == 0 || start == 1,
            (start == 1) == (n > 0 && (s@[0] == '-' || s@[0] == '+')),
            neg == (n > 0 && s@[0] == '-'),
            all_digits(s@.subrange(start as int, j as int)),
            !over ==> mag == dec_uval(s@.subrange(start as int, j as int)) && mag <= 42949672959,
            over ==> dec_uval(s@.subrange(start as int, j as int)) > 4294967295,
        decreases n - j,
    {
        let c = s.get_char(j);
        let code = c as u32;
        if code < 48 || code > 57 {
            proof {
                let whole = s@.subrange(start as int, n as int);
                if start == 0 {
                    assert(whole =~= s@);
                }
                assert(whole[j - start] == s@[j as int]);
                assert(!is_digit(whole[j - start]));
                assert(!all_digits(whole));
            }
            return None;
        }
        let d = (code - 48) as u64;
        proof {
            let pre = s@.subrange(start as int, j as int);
            let post = s@.subrange(start as int, j + 1 as int);
            assert(post.drop_last() =~= pre);
            assert(post.last() == c);
            if over {
                lemma_dec_uval_grows(post);
            }
        }
        if !over {
            if mag > 4294967295 {
                over = true;
            } else {
                mag = mag * 10 + d;
            }
        }
        j += 1;
    }
    proof {
        let body = s@.subrange(start as int, n as int);
        if start == 0 {
            assert(body =~= s@);
        }
        assert(all_digits(body));
        assert(!over ==> mag == dec_uval(body));
        assert(over ==> dec_uval(body) > 4294967295);
    }
    if over {
        return None;
    }
    if neg {
        if mag <= 2147483648 {
            Some((-(mag as i64)) as i32)
        } else {
            None
        }
    } else {
        if mag <= 2147483647 {
            Some(mag as i32)
        } else {
            None
        }
    }
}

pub open spec fn digit_char(d: nat) -> char {
    if d == 0 {
        '0'
    } else if d == 1 {
        '1'
    } else if d == 2 {
        '2'
    } else if d == 3 {
        '3'
    } else if d == 4 {
        '4'
    } else if d == 5 {
        '5'
    } else if d == 6 {
        '6'
    } else if d == 7 {
        '7'
    } else if d == 8 {
        '8'
    } else {
        '9'
    }
}

/// The decimal digits of `n`, most significant first.
pub open spec fn dec_str_u(n: nat) -> Seq<char>
    decreases n,
{
    if n < 10 {
        seq![digit_char(n)]
    } else {
        dec_str_u(n / 10).push(digit_char(n % 10))
    }
}

/// The decimal form of `n`, with a leading `-` when it is negative.
pub open spec fn dec_str_i(n: int) -> Seq<char> {
    if n < 0 {
        seq!['-'] + dec_str_u((-n) as nat)
    } else {
        dec_str_u(n as nat)
    }
}

fn digit_str(d: u32) -> (r: &'static str)
    requires
        d < 10,
    ensures
        r@ == seq![digit_char(d as nat)],
{
    proof {
        reveal_strlit("0");
        reveal_strlit("1");
        reveal_strlit("2");
        reveal_strlit("3");
        reveal_strlit("4");
        reveal_strlit("5");
        reveal_strlit("6");
        reveal_strlit("7");
        reveal_strlit("8");
        reveal_strlit("9");
    }
    let r = if d == 0 {
        "0"
    } else if d == 1 {
        "1"
    } else if d == 2 {
        "2"
    } else if d == 3 {
        "3"
    } else if d == 4 {
        "4"
    } else if d == 5 {
        "5"
    } else if d == 6 {
        "6"
    } else if d == 7 {
        "7"
    } else if d == 8 {
        "8"
    } else {
        "9"
    };
    proof {
        assert(r@ =~= seq![digit_char(d as nat)]);
    }
    r
}

/// Formats `n` in decimal.
pub fn u32_to_string(n: u32) -> (r: String)
    ensures
        r@ == dec_str_u(n as nat),
    decreases n,
{
    if n < 10 {
        digit_str(n).to_owned()
    } else {
        let mut s = u32_to_string(n / 10);
        s.append(digit_str(n % 10));
        proof {
            assert(s@ =~= dec_str_u(n as nat));
        }
        s
    }
}

/// Formats `n` in decimal, with a leading `-` when it is negative.
pub fn i32_to_string(n: i32) -> (r: String)
    ensures
        r@ == dec_str_i(n as int),
{
    if n >= 0 {
        u32_to_string(n as u32)
    } else {
        let mag: u32 = (-(n as i64)) as u32;
        proof {
            reveal_strlit("-");
        }
        let mut s = String::from_str("-");
        let tail = u32_to_string(mag);
        s.append(tail.as_str());
        proof {
            assert(s@ =~= dec_str_i(n as int));
        }
        s
    }
}

} // verus!
