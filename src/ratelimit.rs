//! The rate-limit governor of the crawl: how long to wait before the next
//! request, from the quota signals of the last response.
use vstd::prelude::*;

verus! {

/// Seconds added to the announced reset time before the crawl resumes.
pub const SAFETY_MARGIN_SECS: i64 = 2;

#[derive(Clone, Debug, PartialEq, Eq)]
pub enum GithubApiError {
    InvalidHeaderValue(String),
    /// A response lacked the remaining-quota or the reset-time signal.
    MissingRateLimitHeaders { remaining: Option<String>, reset: Option<String> },
    /// A quota signal was not an integer.
    ParseInt(String),
    Reqwest(String),
    SerdeJson(String),
    ToStr(String),
}

pub open spec fn is_digit(c: char) -> bool {
    '0' <= c <= '9'
}

/// Value of a non-empty run of decimal digits.
pub open spec fn digits_value(s: Seq<char>) -> int
    decreases s.len(),
{
    if s.len() == 0 {
        0
    } else {
        digits_value(s.drop_last()) * 10 + (s.last() as int - '0' as int)
    }
}

pub open spec fn all_digits(s: Seq<char>) -> bool {
    s.len() > 0 && forall|i: int| 0 <= i < s.len() ==> is_digit(#[trigger] s[i])
}

/// The integer that a decimal text spells: an optional `+` or `-`, then one or
/// more digits, and nothing else.
pub open spec fn decimal_value(s: Seq<char>) -> Option<int> {
    if s.len() > 0 && (s[0] == '+' || s[0] == '-') {
        let rest = s.drop_first();
        if all_digits(rest) {
            Some(if s[0] == '-' {
                -digits_value(rest)
            } else {
                digits_value(rest)
            })
        } else {
            None
        }
    } else if all_digits(s) {
        Some(digits_value(s))
    } else {
        None
    }
}

/// The `i64` a text spells, when it spells one in range.
pub open spec fn parsed_i64(s: Seq<char>) -> Option<i64> {
    match decimal_value(s) {
        Some(v) => if i64::MIN <= v <= i64::MAX {
            Some(v as i64)
        } else {
            None
        },
        None => None,
    }
}

/// Magnitudes are accumulated up to this cap, one above the largest that an
/// `i64` can hold (that of `i64::MIN`).
pub const MAGNITUDE_CAP: i128 = 9223372036854775809;

pub open spec fn capped(v: int) -> int {
    if v > MAGNITUDE_CAP {
        MAGNITUDE_CAP as int
    } else {
        v
    }
}

/// The `i64` that a decimal text spells: an optional sign and decimal digits,
/// nothing else, with a value in range.
pub fn parse_i64(s: &str) -> (r: Option<i64>)
    ensures
        r == parsed_i64(s@),
{
    let n = s.unicode_len();
    if n == 0 {
        return None;
    }
    let first = s.get_char(0);
    let neg = first == '-';
    let start: usize = if first == '-' || first == '+' {
        1
    } else {
        0
    };
    let ghost digits = s@.subrange(start as int, n as int);
    proof {
        if start == 1 {
            assert(digits =~= s@.drop_first());
        } else {
            assert(digits =~= s@);
        }
    }
    if start == n {
        assert(!all_digits(digits));
        return None;
    }
    let mut v: i128 = 0;
    let mut i: usize = start;
    while i < n
        invariant
            start <= i <= n,
            n == s@.len(),
            n > 0,
            start == 0 || start == 1,
            neg == (s@[0] == '-'),
            start == 1 ==> digits == s@.drop_first() && (s@[0] == '-' || s@[0] == '+'),
            start == 0 ==> digits == s@ && !(s@[0] == '-' || s@[0] == '+'),
            digits == s@.subrange(start as int, n as int),
            forall|k: int| start <= k < i ==> is_digit(#[trigger] s@[k]),
            0 <= v <= MAGNITUDE_CAP,
            v == capped(digits_value(s@.subrange(start as int, i as int))),
            digits_value(s@.subrange(start as int, i as int)) >= 0,
        decreases n - i,
    {
        let c = s.get_char(i);
        if !('0' <= c && c <= '9') {
            assert(!is_digit(digits[i - start]));
            assert(!all_digits(digits));
            if start == 1 {
                assert(!all_digits(s@.drop_first()));
            } else {
                assert(!all_digits(s@));
            }
            return None;
        }
        let d: i128 = (c as u32 - '0' as u32) as i128;
        let ghost before = digits_value(s@.subrange(start as int, i as int));
        proof {
            assert(s@.subrange(start as int, i + 1).drop_last() =~= s@.subrange(start as int, i as int));
            assert(digits_value(s@.subrange(start as int, i + 1)) == before * 10 + d);
            assert(capped(before * 10 + d) == capped(capped(before) * 10 + d)) by (nonlinear_arith)
                requires
                    before >= 0,
                    0 <= d <= 9,
                    MAGNITUDE_CAP == 9223372036854775809,
            {}
        }
        let next = v * 10 + d;
        v = if next > MAGNITUDE_CAP {
            MAGNITUDE_CAP
        } else {
            next
        };
        i = i + 1;
    }
    proof {
        assert(s@.subrange(start as int, n as int) == digits);
        assert forall|k: int| 0 <= k < digits.len() implies is_digit(#[trigger] digits[k]) by {
            assert(digits[k] == s@[start + k]);
        }
        assert(all_digits(digits));
    }
    let value: i128 = if neg {
        0 - v
    } else {
        v
    };
    if value < i64::MIN as i128 || value > i64::MAX as i128 {
        None
    } else {
        Some(value as i64)
    }
}

pub open spec fn str_view(o: Option<&str>) -> Option<Seq<char>> {
    match o {
        Some(s) => Some(s@),
        None => None,
    }
}

pub open spec fn string_view(o: Option<String>) -> Option<Seq<char>> {
    match o {
        Some(s) => Some(s@),
        None => None,
    }
}

/// The error for a response that lacks a quota signal: it carries both.
pub open spec fn missing_headers(r: Result<u64, GithubApiError>, remaining: Option<&str>, reset: Option<&str>) -> bool {
    r matches Err(GithubApiError::MissingRateLimitHeaders { remaining: a, reset: b })
        && string_view(a) == str_view(remaining) && string_view(b) == str_view(reset)
}

/// Seconds to wait: none while quota remains, else until the reset time plus
/// the margin (none when that time has passed), capped to what `u64` holds.
pub open spec fn delay_spec(remaining: int, reset: int, now: int) -> int {
    if remaining != 0 {
        0
    } else {
        let d = reset - now + SAFETY_MARGIN_SECS;
        if d < 0 {
            0
        } else if d > u64::MAX {
            u64::MAX as int
        } else {
            d
        }
    }
}

/// The wait that the quota signals of a response impose at time `now`; both
/// signals are required.
pub fn rate_limit_delay(remaining: Option<&str>, reset: Option<&str>, now: i64) -> (r: Result<u64, GithubApiError>)
    ensures
        (remaining is None || reset is None) ==> missing_headers(r, remaining, reset),
        match (remaining, reset) {
            (Some(rem), Some(res)) => match (parsed_i64(rem@), parsed_i64(res@)) {
                (Some(a), Some(b)) => r == Ok::<u64, GithubApiError>(delay_spec(a as int, b as int, now as int) as u64),
                _ => r matches Err(GithubApiError::ParseInt(_)),
            },
            _ => true,
        },
{
    match (remaining, reset) {
        (Some(rem), Some(res)) => {
            let a = match parse_i64(rem) {
                Some(a) => a,
                None => {
                    return Err(GithubApiError::ParseInt(String::from_str(rem)));
                },
            };
            let b = match parse_i64(res) {
                Some(b) => b,
                None => {
                    return Err(GithubApiError::ParseInt(String::from_str(res)));
                },
            };
            if a != 0 {
                return Ok(0);
            }
            let d: i128 = b as i128 - now as i128 + SAFETY_MARGIN_SECS as i128;
            if d < 0 {
                Ok(0)
            } else if d > u64::MAX as i128 {
                Ok(u64::MAX)
            } else {
                Ok(d as u64)
            }
        },
        _ => Err(GithubApiError::MissingRateLimitHeaders {
            remaining: match remaining {
                Some(s) => Some(String::from_str(s)),
                None => None,
            },
            reset: match reset {
                Some(s) => Some(String::from_str(s)),
                None => None,
            },
        }),
    }
}

} // verus!
