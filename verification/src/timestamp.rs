//! Capture timestamps. Every snapshot carries the moment it was taken as an
//! RFC 3339 text in UTC; the shape of such a text is specified here and the
//! clock itself is read through a trusted wrapper.

use vstd::prelude::*;

use crate::text::chars_of;

verus! {

pub open spec fn is_ascii_digit(c: char) -> bool {
    '0' <= c && c <= '9'
}

/// Every character in `[from, to)` is a decimal digit.
pub open spec fn digits_between(s: Seq<char>, from: int, to: int) -> bool {
    forall|i: int| from <= i < to ==> is_ascii_digit(#[trigger] s[i])
}

/// The characters `[0, y_end)` form a year: four or more digits, with an
/// explicit sign only on years written with more than four digits.
pub open spec fn year_shape(s: Seq<char>, y_end: int) -> bool {
    ||| (y_end >= 4 && digits_between(s, 0, y_end))
    ||| (y_end >= 5 && (s[0] == '+' || s[0] == '-') && digits_between(s, 1, y_end))
}

/// Date and time-of-day around the `'T'` at index `t`:
/// `year '-' MM '-' DD 'T' hh ':' mm ':' ss`.
pub open spec fn date_time_shape(s: Seq<char>, t: int) -> bool {
    &&& year_shape(s, t - 6)
    &&& s[t - 6] == '-'
    &&& digits_between(s, t - 5, t - 3)
    &&& s[t - 3] == '-'
    &&& digits_between(s, t - 2, t)
    &&& s[t] == 'T'
    &&& digits_between(s, t + 1, t + 3)
    &&& s[t + 3] == ':'
    &&& digits_between(s, t + 4, t + 6)
    &&& s[t + 6] == ':'
    &&& digits_between(s, t + 7, t + 9)
}

/// The characters `[from, to)` are either empty or a `'.'` followed by at
/// least one digit of a subsecond fraction.
pub open spec fn fraction_shape(s: Seq<char>, from: int, to: int) -> bool {
    ||| to == from
    ||| (to >= from + 2 && s[from] == '.' && digits_between(s, from + 1, to))
}

/// The six final characters are the UTC offset `+00:00`.
pub open spec fn utc_suffix_shape(s: Seq<char>, from: int) -> bool {
    &&& s.len() == from + 6
    &&& s[from] == '+'
    &&& s[from + 1] == '0'
    &&& s[from + 2] == '0'
    &&& s[from + 3] == ':'
    &&& s[from + 4] == '0'
    &&& s[from + 5] == '0'
}

/// The whole text is an RFC 3339 date-time in UTC whose `'T'` is at `t`.
pub open spec fn rfc3339_utc_at(s: Seq<char>, t: int) -> bool {
    &&& 10 <= t
    &&& t + 15 <= s.len()
    &&& date_time_shape(s, t)
    &&& fraction_shape(s, t + 9, s.len() - 6)
    &&& utc_suffix_shape(s, s.len() - 6)
}

/// The text is an RFC 3339 date-time in UTC, such as
/// `2018-01-26T18:30:09.453+00:00`.
pub open spec fn is_rfc3339_utc(s: Seq<char>) -> bool {
    exists|t: int| #[trigger] rfc3339_utc_at(s, t)
}

/// Every character in `[from, to)` of the vector is a decimal digit.
fn all_digits_range(v: &Vec<char>, from: usize, to: usize) -> (r: bool)
    requires
        from <= to <= v@.len(),
    ensures
        r == digits_between(v@, from as int, to as int),
{
    let mut i: usize = from;
    while i < to
        invariant
            from <= i <= to <= v@.len(),
            forall|j: int| from <= j < i ==> is_ascii_digit(#[trigger] v@[j]),
        decreases to - i,
    {
        let c = v[i];
        if !('0' <= c && c <= '9') {
            return false;
        }
        i += 1;
    }
    true
}

/// Position of the first `'T'`, if any.
fn find_first_t(v: &Vec<char>) -> (r: Option<usize>)
    ensures
        match r {
            Some(t) => t < v@.len() && v@[t as int] == 'T' && (forall|j: int|
                0 <= j < t ==> v@[j] != 'T'),
            None => forall|j: int| 0 <= j < v@.len() ==> v@[j] != 'T',
        },
{
    let n = v.len();
    let mut i: usize = 0;
    while i < n
        invariant
            i <= n,
            n == v@.len(),
            forall|j: int| 0 <= j < i ==> v@[j] != 'T',
        decreases n - i,
    {
        if v[i] == 'T' {
            return Some(i);
        }
        i += 1;
    }
    None
}

/// In a well-shaped text the `'T'` of the witness is the first `'T'`: every
/// character before it is a digit, a sign or a hyphen.
proof fn lemma_rfc3339_t_unique(s: Seq<char>, t: int)
    requires
        0 <= t < s.len(),
        s[t] == 'T',
        forall|j: int| 0 <= j < t ==> s[j] != 'T',
    ensures
        forall|u: int| #[trigger] rfc3339_utc_at(s, u) ==> u == t,
{
    assert forall|u: int| #[trigger] rfc3339_utc_at(s, u) implies u == t by {
        assert forall|i: int| 0 <= i < u implies s[i] != 'T' by {
            if i < u - 6 {
                assert(is_ascii_digit(s[i]) || s[i] == '+' || s[i] == '-');
            } else if i == u - 6 {
                assert(s[i] == '-');
            } else if i < u - 3 {
                assert(is_ascii_digit(s[i]));
            } else if i == u - 3 {
                assert(s[i] == '-');
            } else {
                assert(is_ascii_digit(s[i]));
            }
        }
        if u < t {
            assert(s[u] != 'T');
        }
        if u > t {
            assert(s[t] != 'T');
        }
    }
}

/// Decide `is_rfc3339_utc` on a text: a verified check that a capture
/// timestamp is well formed.
pub fn is_valid_rfc3339_utc(s: &str) -> (r: bool)
    ensures
        r == is_rfc3339_utc(s@),
{
    let v = chars_of(s);
    let n = v.len();
    let t = match find_first_t(&v) {
        Some(t) => t,
        None => {
            proof {
                assert forall|u: int| !rfc3339_utc_at(s@, u) by {
                    if 0 <= u < s@.len() {
                        assert(s@[u] != 'T');
                    }
                }
            }
            return false;
        },
    };
    proof {
        lemma_rfc3339_t_unique(s@, t as int);
    }
    if t < 10 || n - t < 15 {
        return false;
    }
    let y_end = t - 6;
    let year_ok = if all_digits_range(&v, 0, y_end) {
        true
    } else {
        y_end >= 5 && (v[0] == '+' || v[0] == '-') && all_digits_range(&v, 1, y_end)
    };
    if !year_ok {
        return false;
    }
    let body_ok = v[t - 6] == '-' && all_digits_range(&v, t - 5, t - 3) && v[t - 3] == '-'
        && all_digits_range(&v, t - 2, t) && all_digits_range(&v, t + 1, t + 3) && v[t + 3] == ':'
        && all_digits_range(&v, t + 4, t + 6) && v[t + 6] == ':' && all_digits_range(
        &v,
        t + 7,
        t + 9,
    );
    if !body_ok {
        return false;
    }
    let fs = t + 9;
    let fe = n - 6;
    let frac_ok = if fe == fs {
        true
    } else {
        fe >= fs + 2 && v[fs] == '.' && all_digits_range(&v, fs + 1, fe)
    };
    if !frac_ok {
        return false;
    }
    let suffix_ok = v[fe] == '+' && v[fe + 1] == '0' && v[fe + 2] == '0' && v[fe + 3] == ':' && v[fe
        + 4] == '0' && v[fe + 5] == '0';
    if !suffix_ok {
        return false;
    }
    proof {
        assert(rfc3339_utc_at(s@, t as int));
    }
    true
}

/// Relies on `chrono::DateTime::from_timestamp` and
/// `chrono::DateTime::to_rfc3339`: the current time rendered as year,
/// month, day, `'T'`, hour, minute, second, an optional subsecond fraction,
/// and the offset text `+00:00`. The clock decides the digits, so nothing
/// more than the shape is stated. The clock is read defensively: one that
/// cannot be read or lies outside the representable range degrades to the
/// epoch instead of failing, so the query path never panics.
#[verifier::external_body]
pub(crate) fn now_rfc3339() -> (r: String)
    ensures
        is_rfc3339_utc(r@),
{
    let since_epoch = std::time::SystemTime::now()
        .duration_since(std::time::UNIX_EPOCH)
        .unwrap_or(std::time::Duration::ZERO);
    let secs = i64::try_from(since_epoch.as_secs()).unwrap_or(0);
    let now = chrono::DateTime::from_timestamp(secs, since_epoch.subsec_nanos())
        .unwrap_or(chrono::DateTime::UNIX_EPOCH);
    now.to_rfc3339()
}

} // verus!
