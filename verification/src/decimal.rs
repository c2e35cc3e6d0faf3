//! Decimal text for `i64`: parsing with the rules of `str::parse::<i64>`
//! and printing as `i64::to_string` does.

use vstd::prelude::*;
use crate::text::{chars_of, push_char};

verus! {

pub open spec fn is_digit(c: char) -> bool {
    '0' <= c && c <= '9'
}

pub open spec fn digit_value(c: char) -> int {
    (c as int) - ('0' as int)
}

pub open spec fn digit_char(d: int) -> char {
    (('0' as int) + d) as char
}

pub open spec fn all_digits(s: Seq<char>) -> bool {
    forall|i: int| 0 <= i < s.len() ==> #[trigger] is_digit(s[i])
}

/// The number that a run of decimal digits denotes.
pub open spec fn digits_value(s: Seq<char>) -> int
    decreases s.len(),
{
    if s.len() == 0 {
        0
    } else {
        10 * digits_value(s.drop_last()) + digit_value(s.last())
    }
}

/// What `str::parse::<i64>` yields for the text `s`: an optional `+` or `-`,
/// then at least one digit and nothing else, denoting a value in range.
pub open spec fn parsed_i64(s: Seq<char>) -> Option<i64> {
    if s.len() == 0 {
        None
    } else {
        let negative = s[0] == '-';
        let body = if s[0] == '-' || s[0] == '+' { s.drop_first() } else { s };
        let v: int = if negative { -digits_value(body) } else { digits_value(body) };
        if body.len() == 0 || !all_digits(body) || v < i64::MIN || v > i64::MAX {
            None
        } else {
            Some(v as i64)
        }
    }
}

/// The shortest decimal digits of `m`.
pub open spec fn nat_digits(m: nat) -> Seq<char>
    decreases m,
{
    if m < 10 {
        seq![digit_char(m as int)]
    } else {
        nat_digits(m / 10).push(digit_char((m % 10) as int))
    }
}

/// The text that `i64::to_string` gives for `n`.
pub open spec fn decimal_text(n: int) -> Seq<char> {
    if n < 0 {
        seq!['-'] + nat_digits((-n) as nat)
    } else {
        nat_digits(n as nat)
    }
}

proof fn lemma_digits_value_monotone(s: Seq<char>, j: int, k: int)
    requires
        all_digits(s),
        0 <= j <= k <= s.len(),
    ensures
        0 <= digits_value(s.take(j)) <= digits_value(s.take(k)),
    decreases k,
{
    if k > 0 {
        assert(s.take(k).drop_last() =~= s.take(k - 1));
        assert(is_digit(s[k - 1]));
        if j < k {
            lemma_digits_value_monotone(s, j, k - 1);
        } else {
            lemma_digits_value_monotone(s, k - 1, k - 1);
        }
    } else {
        assert(s.take(0) =~= Seq::<char>::empty());
    }
}

proof fn lemma_digit_char(d: int)
    requires
        0 <= d < 10,
    ensures
        is_digit(digit_char(d)),
        digit_value(digit_char(d)) == d,
        digit_char(d) != '-',
        digit_char(d) != '+',
{
}

proof fn lemma_nat_digits(m: nat)
    ensures
        nat_digits(m).len() >= 1,
        all_digits(nat_digits(m)),
        digits_value(nat_digits(m)) == m,
    decreases m,
{
    lemma_digit_char((m % 10) as int);
    let s = nat_digits(m);
    if m < 10 {
        assert(s.drop_last() =~= Seq::<char>::empty());
        assert(digits_value(Seq::<char>::empty()) == 0);
        assert(s.last() == digit_char(m as int));
    } else {
        lemma_nat_digits(m / 10);
        assert(s.drop_last() =~= nat_digits(m / 10));
        assert(s.last() == digit_char((m % 10) as int));
        assert(m == 10 * (m / 10) + m % 10);
    }
}

/// Law: printing an `i64` and parsing the text back gives the same number.
pub proof fn lemma_decimal_round_trip(n: i64)
    ensures
        parsed_i64(decimal_text(n as int)) == Some(n),
{
    let s = decimal_text(n as int);
    if n < 0 {
        let m: nat = (-n) as nat;
        lemma_nat_digits(m);
        assert(s[0] == '-');
        assert(s.drop_first() =~= nat_digits(m));
    } else {
        let m: nat = n as nat;
        lemma_nat_digits(m);
        assert(nat_digits(m)[0] != '-' && nat_digits(m)[0] != '+') by {
            assert(is_digit(nat_digits(m)[0]));
        }
    }
}

/// Parses decimal text as `str::parse::<i64>` does; `None` where it fails.
pub fn parse_i64(s: &str) -> (res: Option<i64>)
    ensures
        res == parsed_i64(s@),
{
    let cs = chars_of(s);
    let n: usize = cs.len();
    if n == 0 {
        return None;
    }
    let negative = cs[0] == '-';
    let start: usize = if cs[0] == '-' || cs[0] == '+' { 1 } else { 0 };
    let ghost body = if s@[0] == '-' || s@[0] == '+' { s@.drop_first() } else { s@ };
    assert(body =~= s@.subrange(start as int, n as int));
    if start == n {
        return None;
    }
    let mut mag: u64 = 0;
    let mut i: usize = start;
    while i < n
        invariant
            cs@ == s@,
            n == cs.len(),
            start <= i <= n,
            body =~= s@.subrange(start as int, n as int),
            s@.len() > 0,
            body == (if s@[0] == '-' || s@[0] == '+' { s@.drop_first() } else { s@ }),
            forall|j: int| 0 <= j < i - start ==> #[trigger] is_digit(body[j]),
            mag == digits_value(body.take(i - start)),
        decreases n - i,
    {
        let c = cs[i];
        if !('0' <= c && c <= '9') {
            assert(body[i - start] == c);
            assert(!is_digit(body[i - start]));
            assert(!all_digits(body));
            return None;
        }
        let d: u64 = (c as u32 - '0' as u32) as u64;
        let ghost k: int = i - start;
        assert(body.take(k + 1).drop_last() =~= body.take(k));
        assert(body.take(k + 1).last() == c);
        assert(digit_value(c) == d);
        assert(digits_value(body.take(k + 1)) == 10 * mag + d);
        match mag.checked_mul(10) {
            Some(t) => {
                match t.checked_add(d) {
                    Some(u) => {
                        mag = u;
                    },
                    None => {
                        proof {
                            if all_digits(body) {
                                lemma_digits_value_monotone(body, k + 1, body.len() as int);
                                assert(body.take(body.len() as int) =~= body);
                                assert(digits_value(body) > 9223372036854775808int);
                            }
                        }
                        return None;
                    },
                }
            },
            None => {
                proof {
                    if all_digits(body) {
                        lemma_digits_value_monotone(body, k + 1, body.len() as int);
                        assert(body.take(body.len() as int) =~= body);
                        assert(digits_value(body) > 9223372036854775808int);
                    }
                }
                return None;
            },
        }
        i = i + 1;
    }
    assert(body.take(n - start) =~= body);
    assert(all_digits(body));
    if negative {
        if mag <= 9223372036854775808u64 {
            if mag == 9223372036854775808u64 {
                Some(i64::MIN)
            } else {
                let p: i64 = mag as i64;
                Some(-p)
            }
        } else {
            None
        }
    } else {
        if mag <= 9223372036854775807u64 {
            Some(mag as i64)
        } else {
            None
        }
    }
}

fn push_nat_digits(out: &mut String, m: u64)
    ensures
        final(out)@ == old(out)@ + nat_digits(m as nat),
    decreases m,
{
    if m >= 10 {
        push_nat_digits(out, m / 10);
    }
    let d: u8 = (m % 10) as u8;
    let c: char = (d + 48u8) as char;
    assert(c == digit_char((m % 10) as int));
    push_char(out, c);
    proof {
        if m < 10 {
            assert(nat_digits(m as nat) =~= seq![digit_char(m as int)]);
        }
    }
}

/// Prints `n` in decimal, as `i64::to_string` does.
pub fn format_i64(n: i64) -> (res: String)
    ensures
        res@ == decimal_text(n as int),
{
    let mut out = String::new();
    if n < 0 {
        push_char(&mut out, '-');
        let m: u64 = if n == i64::MIN {
            9223372036854775808u64
        } else {
            (-n) as u64
        };
        push_nat_digits(&mut out, m);
    } else {
        push_nat_digits(&mut out, n as u64);
    }
    out
}

} // verus!
