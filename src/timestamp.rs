use vstd::prelude::*;
use vstd::string::StringSliceAdditionalSpecFns;

verus! {

pub open spec fn is_digit(c: u8) -> bool {
    48 <= c <= 57
}

pub open spec fn digit_value(c: u8) -> int {
    c as int - 48
}

/// The bytes at `i .. i + n` are all decimal digits.
pub open spec fn digits_at(b: Seq<u8>, i: int, n: int) -> bool {
    0 <= i && i + n <= b.len() && forall|j: int| i <= j < i + n ==> is_digit(#[trigger] b[j])
}

pub open spec fn two_digits(b: Seq<u8>, i: int) -> int {
    digit_value(b[i]) * 10 + digit_value(b[i + 1])
}

pub open spec fn four_digits(b: Seq<u8>, i: int) -> int {
    two_digits(b, i) * 100 + two_digits(b, i + 2)
}

pub open spec fn is_leap_year(y: int) -> bool {
    y % 4 == 0 && (y % 100 != 0 || y % 400 == 0)
}

pub open spec fn days_in_year(y: int) -> int {
    if is_leap_year(y) {
        366
    } else {
        365
    }
}

pub open spec fn days_in_month(y: int, m: int) -> int {
    if m == 2 {
        if is_leap_year(y) {
            29
        } else {
            28
        }
    } else if m == 4 || m == 6 || m == 9 || m == 11 {
        30
    } else {
        31
    }
}

/// Days from 1970-01-01 to the first day of year `y`.
pub open spec fn days_before_year(y: int) -> int
    decreases y - 1970,
{
    if y <= 1970 {
        0
    } else {
        days_before_year(y - 1) + days_in_year(y - 1)
    }
}

/// Days from the first day of year `y` to the first day of its month `m`.
pub open spec fn days_before_month(y: int, m: int) -> int
    decreases m,
{
    if m <= 1 {
        0
    } else {
        days_before_month(y, m - 1) + days_in_month(y, m - 1)
    }
}

/// The first index at or after `i` that does not hold a digit.
pub open spec fn digits_end(b: Seq<u8>, i: int) -> int
    decreases b.len() - i,
{
    if 0 <= i < b.len() && is_digit(b[i]) {
        digits_end(b, i + 1)
    } else {
        i
    }
}

/// Where the zone designator starts: after the seconds, and after a
/// fraction of a second if there is one. `None` for an empty fraction.
pub open spec fn zone_start(b: Seq<u8>) -> Option<int> {
    if b.len() > 19 && b[19] == 46u8 {
        if digits_end(b, 20) > 20 {
            Some(digits_end(b, 20))
        } else {
            None
        }
    } else {
        Some(19)
    }
}

/// The zone's offset from UTC in seconds, for a designator that starts at `z`
/// and runs to the end: `Z` or `+hh:mm` / `-hh:mm`.
pub open spec fn zone_offset(b: Seq<u8>, z: int) -> Option<int> {
    if z + 1 == b.len() && (b[z] == 90u8 || b[z] == 122u8) {
        Some(0)
    } else if z + 6 == b.len() && (b[z] == 43u8 || b[z] == 45u8) && digits_at(b, z + 1, 2)
        && b[z + 3] == 58u8 && digits_at(b, z + 4, 2) && two_digits(b, z + 1) <= 23
        && two_digits(b, z + 4) <= 59 {
        let magnitude = two_digits(b, z + 1) * 3600 + two_digits(b, z + 4) * 60;
        if b[z] == 43u8 {
            Some(magnitude)
        } else {
            Some(-magnitude)
        }
    } else {
        None
    }
}

/// `YYYY-MM-DDThh:mm:ss`, with a valid calendar date no earlier than 1970
/// and a valid time of day.
pub open spec fn date_time_valid(b: Seq<u8>) -> bool {
    &&& b.len() >= 19
    &&& digits_at(b, 0, 4) && b[4] == 45u8 && digits_at(b, 5, 2) && b[7] == 45u8 && digits_at(b, 8, 2)
    &&& b[10] == 84u8 || b[10] == 116u8
    &&& digits_at(b, 11, 2) && b[13] == 58u8 && digits_at(b, 14, 2) && b[16] == 58u8 && digits_at(b, 17, 2)
    &&& four_digits(b, 0) >= 1970
    &&& 1 <= two_digits(b, 5) <= 12
    &&& 1 <= two_digits(b, 8) <= days_in_month(four_digits(b, 0), two_digits(b, 5))
    &&& two_digits(b, 11) <= 23 && two_digits(b, 14) <= 59 && two_digits(b, 17) <= 59
}

/// Seconds since the Unix epoch of the date and time written at the start of
/// `b`, read as UTC.
pub open spec fn local_seconds(b: Seq<u8>) -> int {
    let y = four_digits(b, 0);
    let days = days_before_year(y) + days_before_month(y, two_digits(b, 5)) + two_digits(b, 8) - 1;
    days * 86400 + two_digits(b, 11) * 3600 + two_digits(b, 14) * 60 + two_digits(b, 17)
}

/// The instant an RFC 3339 timestamp names, in seconds since the Unix epoch;
/// `None` where the text is not such a timestamp or names an instant before
/// the epoch.
pub open spec fn timestamp_seconds(b: Seq<u8>) -> Option<int> {
    if !date_time_valid(b) {
        None
    } else {
        match zone_start(b) {
            None => None,
            Some(z) => match zone_offset(b, z) {
                None => None,
                Some(off) => if local_seconds(b) - off >= 0 {
                    Some(local_seconds(b) - off)
                } else {
                    None
                },
            },
        }
    }
}

fn digit_at(b: &[u8], i: usize) -> (r: Option<u64>)
    requires
        i < b@.len(),
    ensures
        r is Some <==> is_digit(b@[i as int]),
        r is Some ==> r->Some_0 == digit_value(b@[i as int]),
{
    let c = b[i];
    if 48 <= c && c <= 57 {
        Some((c - 48) as u64)
    } else {
        None
    }
}

fn two_digits_at(b: &[u8], i: usize) -> (r: Option<u64>)
    requires
        i + 2 <= b@.len(),
    ensures
        r is Some <==> digits_at(b@, i as int, 2),
        r is Some ==> r->Some_0 == two_digits(b@, i as int),
{
    let n = b.len();
    assert(i + 1 < n);
    match (digit_at(b, i), digit_at(b, i + 1)) {
        (Some(hi), Some(lo)) => {
            assert(digits_at(b@, i as int, 2)) by {
                assert forall|j: int| i <= j < i + 2 implies is_digit(#[trigger] b@[j]) by {
                    if j == i + 1 {
                    }
                }
            }
            Some(hi * 10 + lo)
        },
        _ => {
            assert(!is_digit(b@[i as int]) || !is_digit(b@[i + 1]));
            None
        },
    }
}

fn leap_year(y: u64) -> (r: bool)
    ensures
        r == is_leap_year(y as int),
{
    y % 4 == 0 && (y % 100 != 0 || y % 400 == 0)
}

fn month_length(y: u64, m: u64) -> (r: u64)
    ensures
        r == days_in_month(y as int, m as int),
        r <= 31,
{
    if m == 2 {
        if leap_year(y) {
            29
        } else {
            28
        }
    } else if m == 4 || m == 6 || m == 9 || m == 11 {
        30
    } else {
        31
    }
}

fn days_to_year(y: u64) -> (r: u64)
    requires
        1970 <= y <= 9999,
    ensures
        r == days_before_year(y as int),
        r <= 366 * (y - 1970),
{
    let mut total: u64 = 0;
    let mut i: u64 = 1970;
    while i < y
        invariant
            1970 <= i <= y <= 9999,
            total == days_before_year(i as int),
            total <= 366 * (i - 1970),
        decreases y - i,
    {
        let len: u64 = if leap_year(i) {
            366
        } else {
            365
        };
        total = total + len;
        i = i + 1;
    }
    total
}

fn days_to_month(y: u64, m: u64) -> (r: u64)
    requires
        1 <= m <= 12,
    ensures
        r == days_before_month(y as int, m as int),
        r <= 31 * (m - 1),
{
    let mut total: u64 = 0;
    let mut i: u64 = 1;
    while i < m
        invariant
            1 <= i <= m <= 12,
            total == days_before_month(y as int, i as int),
            total <= 31 * (i - 1),
        decreases m - i,
    {
        total = total + month_length(y, i);
        i = i + 1;
    }
    total
}

/// Reads an RFC 3339 timestamp (`2030-01-31T12:00:00Z`, with an optional
/// fraction of a second, which is dropped, and `Z` or a `+hh:mm` / `-hh:mm`
/// offset) as seconds since the Unix epoch.
pub fn parse_timestamp(text: &str) -> (r: Option<u64>)
    ensures
        match r {
            Some(v) => timestamp_seconds(text.spec_bytes()) == Some(v as int),
            None => timestamp_seconds(text.spec_bytes()) is None,
        },
{
    let b = text.as_bytes();
    let ghost bs = text.spec_bytes();
    let n = b.len();
    if n < 19 || b[4] != 45 || b[7] != 45 || (b[10] != 84 && b[10] != 116) || b[13] != 58 || b[16]
        != 58 {
        return None;
    }
    let (y_hi, y_lo, mo, d, h, mi, s) = match (
        two_digits_at(b, 0),
        two_digits_at(b, 2),
        two_digits_at(b, 5),
        two_digits_at(b, 8),
        two_digits_at(b, 11),
        two_digits_at(b, 14),
        two_digits_at(b, 17),
    ) {
        (Some(a), Some(c), Some(e), Some(f), Some(g), Some(k), Some(l)) => (a, c, e, f, g, k, l),
        _ => {
            proof {
                if digits_at(bs, 0, 4) {
                    assert(digits_at(bs, 0, 2)) by {
                        assert forall|j: int| 0 <= j < 2 implies is_digit(#[trigger] bs[j]) by {
                            assert(0 <= j < 4);
                        }
                    }
                    assert(digits_at(bs, 2, 2)) by {
                        assert forall|j: int| 2 <= j < 4 implies is_digit(#[trigger] bs[j]) by {
                            assert(0 <= j < 4);
                        }
                    }
                }
            }
            return None;
        },
    };
    proof {
        assert(digits_at(bs, 0, 4)) by {
            assert forall|j: int| 0 <= j < 4 implies is_digit(#[trigger] bs[j]) by {
                if j < 2 {
                    assert(0 <= j < 2);
                } else {
                    assert(2 <= j < 4);
                }
            }
        }
    }
    let y = y_hi * 100 + y_lo;
    if y < 1970 || mo < 1 || mo > 12 || h > 23 || mi > 59 || s > 59 {
        return None;
    }
    if d < 1 || d > month_length(y, mo) {
        return None;
    }
    let days = days_to_year(y) + days_to_month(y, mo) + d - 1;
    let local = days * 86400 + h * 3600 + mi * 60 + s;
    assert(local == local_seconds(bs));
    let mut z: usize = 19;
    if n > 19 && b[19] == 46 {
        let mut k: usize = 20;
        while k < n && 48 <= b[k] && b[k] <= 57
            invariant
                20 <= k <= n,
                n == bs.len(),
                b@ == bs,
                digits_end(bs, 20) == digits_end(bs, k as int),
            decreases n - k,
        {
            k = k + 1;
        }
        if k == 20 {
            return None;
        }
        z = k;
    }
    assert(zone_start(bs) == Some(z as int));
    let offset_plus: u64;
    let offset_minus: u64;
    if z < n && n - z == 1 && (b[z] == 90 || b[z] == 122) {
        offset_plus = 0;
        offset_minus = 0;
    } else if z < n && n - z == 6 && (b[z] == 43 || b[z] == 45) && b[z + 3] == 58 {
        match (two_digits_at(b, z + 1), two_digits_at(b, z + 4)) {
            (Some(oh), Some(om)) => {
                if oh > 23 || om > 59 {
                    return None;
                }
                if b[z] == 43 {
                    offset_plus = oh * 3600 + om * 60;
                    offset_minus = 0;
                } else {
                    offset_plus = 0;
                    offset_minus = oh * 3600 + om * 60;
                }
            },
            _ => {
                return None;
            },
        }
    } else {
        return None;
    }
    assert(zone_offset(bs, z as int) == Some(offset_plus - offset_minus));
    if local < offset_plus {
        return None;
    }
    Some(local - offset_plus + offset_minus)
}

} // verus!
