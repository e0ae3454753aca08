//! Decimal literals: the text form of the integers that subcommands take.
use vstd::prelude::*;

verus! {

/// A decimal digit.
pub open spec fn is_digit(c: char) -> bool {
    '0' <= c && c <= '9'
}

/// The value of one decimal digit.
pub open spec fn digit_value(c: char) -> int {
    c as int - '0' as int
}

/// A non-empty run of decimal digits.
pub open spec fn all_digits(s: Seq<char>) -> bool {
    s.len() > 0 && forall|i: int| 0 <= i < s.len() ==> is_digit(#[trigger] s[i])
}

/// The number that a run of decimal digits denotes, most significant first.
pub open spec fn digits_value(s: Seq<char>) -> int
    decreases s.len(),
{
    if s.len() == 0 {
        0
    } else {
        digits_value(s.drop_last()) * 10 + digit_value(s.last())
    }
}

/// The integer that a literal denotes: an optional sign (`-` only where `signed`),
/// then one or more digits. `None` where the text is no such literal.
pub open spec fn literal_value(s: Seq<char>, signed: bool) -> Option<int> {
    if s.len() > 0 && s[0] == '+' && all_digits(s.drop_first()) {
        Some(digits_value(s.drop_first()))
    } else if signed && s.len() > 0 && s[0] == '-' && all_digits(s.drop_first()) {
        Some(-digits_value(s.drop_first()))
    } else if all_digits(s) {
        Some(digits_value(s))
    } else {
        None
    }
}

/// The value that a literal gives in a type whose values run from `lo` to `hi`:
/// `None` where the text is no literal or the number lies outside that range.
pub open spec fn parsed_in_range(s: Seq<char>, signed: bool, lo: int, hi: int) -> Option<int> {
    match literal_value(s, signed) {
        Some(v) => if lo <= v && v <= hi {
            Some(v)
        } else {
            None
        },
        None => None,
    }
}

proof fn lemma_digits_value_nonneg(s: Seq<char>)
    requires
        forall|i: int| 0 <= i < s.len() ==> is_digit(#[trigger] s[i]),
    ensures
        digits_value(s) >= 0,
    decreases s.len(),
{
    if s.len() > 0 {
        lemma_digits_value_nonneg(s.drop_last());
    }
}

/// Reads the digits of `s` from character `start` on. Returns the number they
/// denote where they are one or more digits and the number is at most `limit`.
fn read_magnitude(s: &str, start: usize, limit: u64) -> (r: Option<u64>)
    requires
        start <= s@.len(),
        limit < 0x1_0000_0000,
    ensures
        ({
            let rest = s@.subrange(start as int, s@.len() as int);
            match r {
                Some(v) => all_digits(rest) && v == digits_value(rest) && v <= limit,
                None => !all_digits(rest) || digits_value(rest) > limit,
            }
        }),
{
    let n = s.unicode_len();
    if start >= n {
        return None;
    }
    let mut acc: u64 = 0;
    let mut i: usize = start;
    while i < n
        invariant
            start <= i <= n,
            n == s@.len(),
            limit < 0x1_0000_0000,
            forall|j: int| start <= j < i ==> is_digit(#[trigger] s@[j]),
            acc <= limit + 1,
            acc == if digits_value(s@.subrange(start as int, i as int)) <= limit + 1 {
                digits_value(s@.subrange(start as int, i as int))
            } else {
                limit + 1
            },
        decreases n - i,
    {
        let c = s.get_char(i);
        if c < '0' || c > '9' {
            proof {
                let rest = s@.subrange(start as int, s@.len() as int);
                assert(rest[i - start] == c);
            }
            return None;
        }
        let d: u64 = (c as u32 - '0' as u32) as u64;
        let ghost prefix = s@.subrange(start as int, i as int);
        let ghost next = s@.subrange(start as int, i + 1);
        proof {
            assert(next.drop_last() =~= prefix);
            assert(next.last() == c);
            lemma_digits_value_nonneg(prefix);
            let v = digits_value(prefix);
            let l = limit as int;
            if v > l + 1 {
                assert(v * 10 + d > l + 1) by (nonlinear_arith)
                    requires v > l + 1, l >= 0, d >= 0;
            }
        }
        let grown: u64 = acc * 10 + d;
        if grown > limit + 1 {
            acc = limit + 1;
        } else {
            acc = grown;
        }
        i = i + 1;
    }
    proof {
        assert(s@.subrange(start as int, n as int) =~= s@.subrange(start as int, s@.len() as int));
    }
    if acc <= limit {
        Some(acc)
    } else {
        None
    }
}

/// An integer type whose values can be read from a decimal literal.
pub trait Number: Sized {
    /// The integer that a value stands for.
    spec fn value(&self) -> int;

    /// The least value of the type.
    spec fn lowest() -> int;

    /// The greatest value of the type.
    spec fn highest() -> int;

    /// Whether a literal of the type may start with `-`.
    spec fn signed() -> bool;

    /// Reads a decimal literal; `None` where the text is no literal of the type.
    fn from_literal(s: &str) -> (r: Option<Self>)
        ensures
            match r {
                Some(n) => parsed_in_range(s@, Self::signed(), Self::lowest(), Self::highest())
                    == Some(n.value()),
                None => parsed_in_range(s@, Self::signed(), Self::lowest(), Self::highest()) is None,
            },
    ;
}

/// Reads an unsigned literal whose value is at most `limit`: an optional `+`, then digits.
fn read_unsigned(s: &str, limit: u64) -> (r: Option<u64>)
    requires
        limit < 0x1_0000_0000,
    ensures
        match r {
            Some(v) => parsed_in_range(s@, false, 0, limit as int) == Some(v as int),
            None => parsed_in_range(s@, false, 0, limit as int) is None,
        },
{
    let n = s.unicode_len();
    if n > 0 && s.get_char(0) == '+' {
        let r = read_magnitude(s, 1, limit);
        proof {
            assert(s@.subrange(1, s@.len() as int) =~= s@.drop_first());
            assert(!is_digit(s@[0]));
            if let Some(v) = r {
                lemma_digits_value_nonneg(s@.drop_first());
            }
        }
        r
    } else {
        let r = read_magnitude(s, 0, limit);
        proof {
            assert(s@.subrange(0, s@.len() as int) =~= s@);
            if all_digits(s@) {
                lemma_digits_value_nonneg(s@);
            }
        }
        r
    }
}

impl Number for u8 {
    open spec fn value(&self) -> int {
        *self as int
    }

    open spec fn lowest() -> int {
        0
    }

    open spec fn highest() -> int {
        u8::MAX as int
    }

    open spec fn signed() -> bool {
        false
    }

    fn from_literal(s: &str) -> (r: Option<u8>) {
        match read_unsigned(s, u8::MAX as u64) {
            Some(v) => Some(v as u8),
            None => None,
        }
    }
}

impl Number for u32 {
    open spec fn value(&self) -> int {
        *self as int
    }

    open spec fn lowest() -> int {
        0
    }

    open spec fn highest() -> int {
        u32::MAX as int
    }

    open spec fn signed() -> bool {
        false
    }

    fn from_literal(s: &str) -> (r: Option<u32>) {
        match read_unsigned(s, u32::MAX as u64) {
            Some(v) => Some(v as u32),
            None => None,
        }
    }
}

impl Number for i32 {
    open spec fn value(&self) -> int {
        *self as int
    }

    open spec fn lowest() -> int {
        i32::MIN as int
    }

    open spec fn highest() -> int {
        i32::MAX as int
    }

    open spec fn signed() -> bool {
        true
    }

    fn from_literal(s: &str) -> (r: Option<i32>) {
        let n = s.unicode_len();
        if n > 0 && s.get_char(0) == '-' {
            let r = read_magnitude(s, 1, 0x8000_0000);
            proof {
                assert(s@.subrange(1, s@.len() as int) =~= s@.drop_first());
                assert(!is_digit(s@[0]));
                if all_digits(s@.drop_first()) {
                    lemma_digits_value_nonneg(s@.drop_first());
                    assert(literal_value(s@, true) == Some(-digits_value(s@.drop_first())));
                } else {
                    assert(literal_value(s@, true) is None);
                }
            }
            match r {
                Some(m) => Some((0 - (m as i64)) as i32),
                None => None,
            }
        } else {
            let r = read_unsigned(s, i32::MAX as u64);
            proof {
                assert(literal_value(s@, true) == literal_value(s@, false));
                if s@.len() > 0 && s@[0] == '+' && all_digits(s@.drop_first()) {
                    lemma_digits_value_nonneg(s@.drop_first());
                } else if all_digits(s@) {
                    lemma_digits_value_nonneg(s@);
                }
            }
            match r {
                Some(v) => Some(v as i32),
                None => None,
            }
        }
    }
}

} // verus!
