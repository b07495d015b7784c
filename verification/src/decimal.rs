use vstd::prelude::*;

verus! {

/// A monetary value in fixed-point form: the digits of the source text as
/// an integer `mantissa`, with `scale` fraction digits and a sign.  The
/// denoted value is `(-1)^negative * mantissa / 10^scale`.
#[derive(Debug, Clone, Copy, PartialEq, Eq, Structural)]
pub struct DecimalValue {
    pub negative: bool,
    pub mantissa: u64,
    pub scale: u32,
}

/// The most digits a monetary text may carry; keeps the mantissa within `u64`.
pub const MAX_AMOUNT_DIGITS: usize = 19;

pub open spec fn is_digit(c: char) -> bool {
    48 <= c as int <= 57
}

pub open spec fn digit_val(c: char) -> int {
    c as int - 48
}

pub open spec fn all_digits(s: Seq<char>) -> bool {
    forall|i: int| 0 <= i < s.len() ==> is_digit(s[i])
}

/// The natural number a digit string denotes, most significant digit first.
pub open spec fn digits_val(s: Seq<char>) -> int
    decreases s.len(),
{
    if s.len() == 0 {
        0
    } else {
        digits_val(s.drop_last()) * 10 + digit_val(s.last())
    }
}

/// Index of the first `.` in `s` at or after `from`, if any.
pub open spec fn first_dot(s: Seq<char>, from: int) -> Option<int>
    decreases s.len() - from,
{
    if from < 0 || from >= s.len() {
        None
    } else if s[from] == '.' {
        Some(from)
    } else {
        first_dot(s, from + 1)
    }
}

pub open spec fn pow10(n: nat) -> int
    decreases n,
{
    if n == 0 {
        1
    } else {
        10 * pow10((n - 1) as nat)
    }
}

/// The digit part of the grammar, after the optional sign has been removed:
/// digits, optionally interrupted by one `.`; at least one digit in all, and
/// at most `MAX_AMOUNT_DIGITS` of them.  On success, the digits' value and
/// the count of fraction digits.
pub open spec fn dec_of_tail(t: Seq<char>) -> Option<(nat, nat)> {
    let ip = match first_dot(t, 0) {
        Some(d) => t.take(d),
        None => t,
    };
    let fp = match first_dot(t, 0) {
        Some(d) => t.skip(d + 1),
        None => Seq::<char>::empty(),
    };
    if all_digits(ip) && all_digits(fp) && ip.len() + fp.len() >= 1 && ip.len() + fp.len()
        <= MAX_AMOUNT_DIGITS {
        Some((digits_val(ip + fp) as nat, fp.len()))
    } else {
        None
    }
}

/// The decimal grammar of a monetary text: an optional sign, digits, and an
/// optional fraction after one `.`.  `None` on any other text.
pub open spec fn dec_of(s: Seq<char>) -> Option<DecimalValue> {
    let neg = s.len() > 0 && s[0] == '-';
    let t = if s.len() > 0 && (s[0] == '-' || s[0] == '+') {
        s.skip(1)
    } else {
        s
    };
    match dec_of_tail(t) {
        Some((m, sc)) => Some(
            DecimalValue { negative: neg, mantissa: m as u64, scale: sc as u32 },
        ),
        None => None,
    }
}

pub proof fn lemma_digits_val_bound(s: Seq<char>)
    requires
        all_digits(s),
    ensures
        0 <= digits_val(s) < pow10(s.len()),
    decreases s.len(),
{
    if s.len() > 0 {
        assert(all_digits(s.drop_last())) by {
            assert(forall|i: int|
                0 <= i < s.len() - 1 ==> s.drop_last()[i] == s[i] && is_digit(s[i]));
        }
        lemma_digits_val_bound(s.drop_last());
    }
}

pub proof fn lemma_pow10_mono(a: nat, b: nat)
    requires
        a <= b,
    ensures
        pow10(a) <= pow10(b),
    decreases b,
{
    if a < b {
        lemma_pow10_mono(a, (b - 1) as nat);
        assert(pow10(b) == 10 * pow10((b - 1) as nat));
        assert(pow10(a) >= 1) by {
            lemma_pow10_pos(a);
        }
    }
}

pub proof fn lemma_pow10_pos(n: nat)
    ensures
        pow10(n) >= 1,
    decreases n,
{
    if n > 0 {
        lemma_pow10_pos((n - 1) as nat);
    }
}

proof fn lemma_pow10_19()
    ensures
        pow10(19) == 10000000000000000000,
{
    reveal_with_fuel(pow10, 21);
}

pub proof fn lemma_first_dot_some(s: Seq<char>, from: int, d: int)
    requires
        first_dot(s, from) == Some(d),
    ensures
        from <= d < s.len(),
        s[d] == '.',
    decreases s.len() - from,
{
    if from < 0 || from >= s.len() {
    } else if s[from] == '.' {
    } else {
        lemma_first_dot_some(s, from + 1, d);
    }
}

/// Parses a monetary text into its fixed-point value: exactly the texts of
/// the decimal grammar `dec_of` succeed, and the parsed value is the one
/// the grammar denotes.
pub fn parse_decimal(s: &str) -> (r: Option<DecimalValue>)
    ensures
        r == dec_of(s@),
{
    let n = s.unicode_len();
    let mut st: usize = 0;
    let mut neg = false;
    if n > 0 {
        let c0 = s.get_char(0);
        if c0 == '-' {
            neg = true;
            st = 1;
        } else if c0 == '+' {
            st = 1;
        }
    }
    let ghost t = if st == 1 { s@.skip(1) } else { s@ };
    proof {
        assert(t.len() == n - st);
    }
    let mut i: usize = st;
    let mut mantissa: u64 = 0;
    let mut count: usize = 0;
    let mut dot: Option<usize> = None;
    let mut scale: u32 = 0;
    while i < n
        invariant
            n == s@.len(),
            st <= 1,
            st <= i <= n,
            (st == 1) == (s@.len() > 0 && (s@[0] == '-' || s@[0] == '+')),
            neg == (s@.len() > 0 && s@[0] == '-'),
            t == (if st == 1 { s@.skip(1) } else { s@ }),
            count <= MAX_AMOUNT_DIGITS,
            match dot {
                None => {
                    &&& all_digits(t.take(i - st))
                    &&& count == i - st
                    &&& mantissa == digits_val(t.take(i - st))
                    &&& scale == 0
                    &&& first_dot(t, 0) == first_dot(t, i - st)
                },
                Some(d) => {
                    &&& st <= d < i
                    &&& t[d - st] == '.'
                    &&& first_dot(t, 0) == Some(d - st)
                    &&& all_digits(t.take(d - st))
                    &&& all_digits(t.subrange(d - st + 1, i - st))
                    &&& count == i - st - 1
                    &&& scale == i - 1 - d
                    &&& mantissa == digits_val(
                        t.take(d - st) + t.subrange(d - st + 1, i - st),
                    )
                },
            },
        decreases n - i,
    {
        let c = s.get_char(i);
        let u = c as u32;
        let ghost p = i - st;
        if 48 <= u && u <= 57 {
            if count == MAX_AMOUNT_DIGITS {
                proof {
                    lemma_dec_too_many(t, p, dot, st as int, i as int);
                }
                return None;
            }
            proof {
                let ghost ds = match dot {
                    None => t.take(p),
                    Some(d) => t.take(d - st) + t.subrange(d - st + 1, p),
                };
                assert(ds.len() == count);
                lemma_digits_val_bound(ds);
                lemma_pow10_mono(ds.len(), 18);
                lemma_pow10_19();
                assert(pow10(19) == 10 * pow10(18));
                assert(mantissa < pow10(18));
            }
            mantissa = mantissa * 10 + (u - 48) as u64;
            count = count + 1;
            if dot.is_some() {
                scale = scale + 1;
            }
            proof {
                match dot {
                    None => {
                        assert(t.take(p + 1).drop_last() =~= t.take(p));
                        assert(t.take(p + 1).last() == t[p]);
                        assert(first_dot(t, p) == first_dot(t, p + 1));
                    },
                    Some(d) => {
                        let pre = t.take(d - st);
                        let old_fp = t.subrange(d - st + 1, p);
                        let new_fp = t.subrange(d - st + 1, p + 1);
                        assert((pre + new_fp).drop_last() =~= pre + old_fp);
                        assert((pre + new_fp).last() == t[p]);
                        assert(forall|j: int|
                            0 <= j < new_fp.len() ==> new_fp[j] == t[d - st + 1 + j]);
                    },
                }
            }
        } else if c == '.' {
            if dot.is_some() {
                proof {
                    let d = dot.unwrap() as int;
                    let fp = t.skip(d - st + 1);
                    assert(fp[p - (d - st + 1)] == t[p]);
                    assert(!is_digit(t[p]));
                }
                return None;
            }
            proof {
                assert(first_dot(t, p) == Some(p));
            }
            dot = Some(i);
        } else {
            proof {
                lemma_dec_bad_char(t, p, dot, st as int, i as int);
            }
            return None;
        }
        i = i + 1;
    }
    if count == 0 {
        proof {
            match dot {
                None => {
                    assert(match first_dot(t, 0) {
                        None => t,
                        Some(d) => t.take(d),
                    } =~= t.take(0));
                },
                Some(d) => {
                    assert(t.take(d - st).len() + t.skip(d - st + 1).len() == 0);
                },
            }
        }
        return None;
    }
    proof {
        match dot {
            None => {
                assert(t.take(i - st) =~= t);
                assert(t + Seq::<char>::empty() =~= t);
            },
            Some(d) => {
                assert(t.subrange(d - st + 1, i - st) =~= t.skip(d - st + 1));
            },
        }
    }
    Some(DecimalValue { negative: neg, mantissa, scale })
}

/// A digit past the allowed count: the grammar refuses the whole text.
proof fn lemma_dec_too_many(t: Seq<char>, p: int, dot: Option<usize>, st: int, i: int)
    requires
        0 <= st <= 1,
        st <= i,
        p == i - st,
        0 <= p < t.len(),
        is_digit(t[p]),
        match dot {
            None => p >= MAX_AMOUNT_DIGITS && first_dot(t, 0) == first_dot(t, p),
            Some(d) => {
                &&& st <= d < i
                &&& t[d - st] == '.'
                &&& first_dot(t, 0) == Some(d - st)
                &&& p - 1 >= MAX_AMOUNT_DIGITS
            },
        },
    ensures
        dec_of_tail(t) is None,
{
    match dot {
        None => {
            match first_dot(t, 0) {
                None => {
                    assert(t.len() >= p + 1);
                },
                Some(d0) => {
                    lemma_first_dot_some(t, p, d0);
                    assert(d0 != p);
                    assert(t.take(d0).len() >= p + 1);
                },
            }
        },
        Some(d) => {
            let d0 = d - st;
            assert(t.take(d0).len() + t.skip(d0 + 1).len() >= p);
        },
    }
}

/// A character that is neither a digit nor the first `.`: the grammar
/// refuses the whole text.
proof fn lemma_dec_bad_char(t: Seq<char>, p: int, dot: Option<usize>, st: int, i: int)
    requires
        0 <= st <= 1,
        st <= i,
        p == i - st,
        0 <= p < t.len(),
        !is_digit(t[p]),
        t[p] != '.',
        match dot {
            None => first_dot(t, 0) == first_dot(t, p),
            Some(d) => {
                &&& st <= d < i
                &&& t[d - st] == '.'
                &&& first_dot(t, 0) == Some(d - st)
            },
        },
    ensures
        dec_of_tail(t) is None,
{
    match dot {
        None => {
            match first_dot(t, 0) {
                None => {
                    assert(!all_digits(t));
                },
                Some(d0) => {
                    lemma_first_dot_some(t, p, d0);
                    assert(d0 > p);
                    assert(t.take(d0)[p] == t[p]);
                    assert(!all_digits(t.take(d0)));
                },
            }
        },
        Some(d) => {
            let d0 = d - st;
            assert(t.skip(d0 + 1)[p - (d0 + 1)] == t[p]);
            assert(!all_digits(t.skip(d0 + 1)));
        },
    }
}

} // verus!
