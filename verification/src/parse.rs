//! Numeric reading of the user's answers.
//!
//! The session never rejects an answer: a selection that does not read as a
//! number in range falls back to the first prompt, and a score that does not
//! read as a number is recorded as zero. The parsing functions here say
//! exactly which strings read as numbers, so those fallback policies can be
//! stated and proved.

use vstd::prelude::*;

verus! {

/// Whether `c` is an ASCII decimal digit.
pub open spec fn is_digit(c: char) -> bool {
    48 <= c as u32 <= 57
}

/// The value of a single ASCII decimal digit.
pub open spec fn digit_val(c: char) -> int {
    c as u32 - 48
}

/// Whether every character of `s` is an ASCII decimal digit.
pub open spec fn all_digits(s: Seq<char>) -> bool {
    forall|i: int| 0 <= i < s.len() ==> is_digit(s[i])
}

/// The value of a digit string read in base ten.
pub open spec fn digits_val(s: Seq<char>) -> int
    decreases s.len(),
{
    if s.len() == 0 {
        0
    } else {
        digits_val(s.drop_last()) * 10 + digit_val(s.last())
    }
}

/// The digits of an unsigned numeral: everything after one optional leading
/// `'+'`.
pub open spec fn unsigned_body(s: Seq<char>) -> Seq<char> {
    if s.len() > 0 && s[0] == '+' {
        s.subrange(1, s.len() as int)
    } else {
        s
    }
}

/// What `str::parse::<u64>` accepts: an optional `'+'`, then one or more
/// ASCII digits whose value fits in the type.
pub open spec fn parse_u64_spec(s: Seq<char>) -> Option<u64> {
    let b = unsigned_body(s);
    if b.len() > 0 && all_digits(b) && digits_val(b) <= u64::MAX {
        Some(digits_val(b) as u64)
    } else {
        None
    }
}

/// The digits of a signed numeral: everything after one optional leading
/// `'+'` or `'-'`.
pub open spec fn signed_body(s: Seq<char>) -> Seq<char> {
    if s.len() > 0 && (s[0] == '+' || s[0] == '-') {
        s.subrange(1, s.len() as int)
    } else {
        s
    }
}

/// The signed value of a signed numeral, before any range check.
pub open spec fn signed_val(s: Seq<char>) -> int {
    if s.len() > 0 && s[0] == '-' {
        -digits_val(signed_body(s))
    } else {
        digits_val(signed_body(s))
    }
}

/// What `str::parse::<i32>` accepts: an optional sign, then one or more
/// ASCII digits, the signed value fitting in the type.
pub open spec fn parse_i32_spec(s: Seq<char>) -> Option<i32> {
    let b = signed_body(s);
    if b.len() > 0 && all_digits(b) && i32::MIN <= signed_val(s) <= i32::MAX {
        Some(signed_val(s) as i32)
    } else {
        None
    }
}

/// Reads the digits of `s` from position `start` to the end, base ten.
fn digits_from(s: &str, start: usize) -> (r: Option<u64>)
    requires
        start <= s@.len(),
    ensures
        ({
            let b = s@.subrange(start as int, s@.len() as int);
            match r {
                Some(v) => b.len() > 0 && all_digits(b) && digits_val(b) == v,
                None => !(b.len() > 0 && all_digits(b) && digits_val(b) <= u64::MAX),
            }
        }),
{
    let n = s.unicode_len();
    if n == start {
        return None;
    }
    let mut value: u64 = 0;
    let mut over: bool = false;
    let mut i: usize = start;
    while i < n
        invariant
            start <= i <= n,
            n == s@.len(),
            all_digits(s@.subrange(start as int, i as int)),
            !over ==> digits_val(s@.subrange(start as int, i as int)) == value,
            over ==> digits_val(s@.subrange(start as int, i as int)) > u64::MAX,
        decreases n - i,
    {
        let c = s.get_char(i);
        let u = c as u32;
        if u < 48 || u > 57 {
            proof {
                let b = s@.subrange(start as int, s@.len() as int);
                assert(!is_digit(b[i - start]));
            }
            return None;
        }
        let d: u64 = (u - 48) as u64;
        proof {
            let p = s@.subrange(start as int, i as int);
            let q = s@.subrange(start as int, (i + 1) as int);
            assert(q =~= p.push(s@[i as int]));
            assert(q.drop_last() =~= p);
            assert(q.last() == s@[i as int]);
            assert(digits_val(q) == digits_val(p) * 10 + digit_val(s@[i as int]));
        }
        if over {
            proof {
                let p = s@.subrange(start as int, i as int);
                assert(digits_val(p) * 10 + d > u64::MAX) by {
                    assert(digits_val(p) * 10 >= digits_val(p)) by (nonlinear_arith)
                        requires
                            digits_val(p) > 0,
                    ;
                }
            }
        } else {
            let wide: u128 = value as u128 * 10 + d as u128;
            if wide > u64::MAX as u128 {
                over = true;
            } else {
                value = wide as u64;
            }
        }
        i = i + 1;
    }
    proof {
        assert(s@.subrange(start as int, i as int) =~= s@.subrange(start as int, s@.len() as int));
    }
    if over {
        None
    } else {
        Some(value)
    }
}

/// Parses an unsigned number the way `str::parse::<u64>` does.
pub fn parse_u64(s: &str) -> (r: Option<u64>)
    ensures
        r == parse_u64_spec(s@),
{
    let n = s.unicode_len();
    if n > 0 && s.get_char(0) == '+' {
        digits_from(s, 1)
    } else {
        proof {
            assert(s@.subrange(0, s@.len() as int) =~= s@);
        }
        digits_from(s, 0)
    }
}

/// Parses a signed number the way `str::parse::<i32>` does.
pub fn parse_i32(s: &str) -> (r: Option<i32>)
    ensures
        r == parse_i32_spec(s@),
{
    let n = s.unicode_len();
    let mut neg: bool = false;
    let mut start: usize = 0;
    if n > 0 {
        let c0 = s.get_char(0);
        if c0 == '+' {
            start = 1;
        } else if c0 == '-' {
            neg = true;
            start = 1;
        }
    }
    proof {
        if start == 0 {
            assert(s@.subrange(0, s@.len() as int) =~= s@);
        }
    }
    match digits_from(s, start) {
        None => None,
        Some(u) => {
            if neg {
                if u <= 2147483648 {
                    if u == 2147483648 {
                        Some(i32::MIN)
                    } else {
                        Some(-(u as i32))
                    }
                } else {
                    None
                }
            } else {
                if u <= 2147483647 {
                    Some(u as i32)
                } else {
                    None
                }
            }
        },
    }
}

/// How many built-in idea prompts the script offers.
pub const PROMPT_COUNT: usize = 5;

/// Which prompt a selection answer picks, as an index into the fixed list:
/// a number in `1..=5` picks that prompt; anything else falls back to the
/// first.
pub open spec fn selection_spec(s: Seq<char>) -> int {
    match parse_u64_spec(s) {
        Some(n) => if 1 <= n <= 5 {
            n - 1
        } else {
            0
        },
        None => 0,
    }
}

/// Turns the selection answer into the chosen prompt's index.
pub fn select_prompt(s: &str) -> (i: usize)
    ensures
        i == selection_spec(s@),
        i < PROMPT_COUNT,
{
    match parse_u64(s) {
        Some(n) => if 1 <= n && n <= 5 {
            (n - 1) as usize
        } else {
            0
        },
        None => 0,
    }
}

/// The value a scoring answer records: its number when it reads as one,
/// zero otherwise.
pub open spec fn score_spec(s: Seq<char>) -> int {
    match parse_i32_spec(s) {
        Some(v) => v as int,
        None => 0,
    }
}

/// Turns a scoring answer into the recorded value.
pub fn parse_score(s: &str) -> (v: i32)
    ensures
        v as int == score_spec(s@),
{
    match parse_i32(s) {
        Some(v) => v,
        None => 0,
    }
}

/// Law: a selection answer that does not read as a number, or reads as one
/// outside `1..=5`, always picks the first prompt.
pub proof fn lemma_selection_defaults(s: Seq<char>)
    requires
        parse_u64_spec(s) is None || !(1 <= parse_u64_spec(s).unwrap() <= 5),
    ensures
        selection_spec(s) == 0,
{
}

/// Law: a scoring answer that does not read as a number is recorded as zero.
pub proof fn lemma_score_default(s: Seq<char>)
    requires
        parse_i32_spec(s) is None,
    ensures
        score_spec(s) == 0,
{
}

} // verus!
