//! Reading the `writtenAt` stamp of the status snapshot: `YYYY-MM-DDTHH:MM:SS(.mmm)Z`
//! to seconds since the Unix epoch, with the days-from-civil formula of Howard Hinnant.
use vstd::prelude::*;
use vstd::utf8::encode_utf8;

verus! {

pub open spec fn is_ascii_digit(b: u8) -> bool {
    48 <= b && b <= 57
}

pub open spec fn all_ascii_digits(s: Seq<u8>) -> bool {
    forall|i: int| 0 <= i < s.len() ==> is_ascii_digit(#[trigger] s[i])
}

/// The number that a run of ASCII digits spells in base ten.
pub open spec fn digits_value(s: Seq<u8>) -> int
    decreases s.len(),
{
    if s.len() == 0 {
        0
    } else {
        10 * digits_value(s.drop_last()) + (s.last() - 48)
    }
}

/// What `i64::from_str` gives for a text of a few bytes: an optional `+` or `-`,
/// then at least one ASCII digit, and nothing else.
pub open spec fn decimal_integer(s: Seq<u8>) -> Option<int> {
    if s.len() > 0 && (s[0] == 43 || s[0] == 45) {
        let digits = s.drop_first();
        if digits.len() > 0 && all_ascii_digits(digits) {
            Some(
                if s[0] == 45 {
                    -digits_value(digits)
                } else {
                    digits_value(digits)
                },
            )
        } else {
            None
        }
    } else if s.len() > 0 && all_ascii_digits(s) {
        Some(digits_value(s))
    } else {
        None
    }
}

/// The numeric field that occupies bytes `lo..hi` of the stamp.
pub open spec fn stamp_field(b: Seq<u8>, lo: int, hi: int) -> Option<int> {
    decimal_integer(b.subrange(lo, hi))
}

/// Days from 1970-01-01 to the civil date `y-m-d` (proleptic Gregorian calendar),
/// by the era / year-of-era / day-of-year decomposition with years starting in March.
/// For month and day values outside the calendar it extends the same arithmetic.
pub open spec fn days_from_civil(y: int, m: int, d: int) -> int {
    let yy = if m <= 2 {
        y - 1
    } else {
        y
    };
    let era = yy / 400;
    let yoe = yy - era * 400;
    let mp = if m > 2 {
        m - 3
    } else {
        m + 9
    };
    let doy = (153 * mp + 2) / 5 + d - 1;
    let doe = yoe * 365 + yoe / 4 - yoe / 100 + doy;
    era * 146097 + doe - 719468
}

/// Seconds since the epoch that a stamp denotes: `None` when it is shorter than
/// 19 bytes or one of its six numeric fields does not read as an integer.
/// The bytes between the fields and those after the seconds are not looked at.
pub open spec fn iso_epoch_seconds(b: Seq<u8>) -> Option<int> {
    if b.len() < 19 {
        None
    } else {
        match (
            stamp_field(b, 0, 4),
            stamp_field(b, 5, 7),
            stamp_field(b, 8, 10),
            stamp_field(b, 11, 13),
            stamp_field(b, 14, 16),
            stamp_field(b, 17, 19),
        ) {
            (Some(y), Some(mo), Some(d), Some(h), Some(mi), Some(s)) => Some(
                days_from_civil(y, mo, d) * 86400 + h * 3600 + mi * 60 + s,
            ),
            _ => None,
        }
    }
}

/// The same reading of a text, through its UTF-8 bytes.
pub open spec fn iso_epoch_seconds_of_text(text: Seq<char>) -> Option<int> {
    iso_epoch_seconds(encode_utf8(text))
}

proof fn lemma_digits_step(b: Seq<u8>, start: int, i: int)
    requires
        0 <= start <= i < b.len(),
    ensures
        digits_value(b.subrange(start, i + 1)) == 10 * digits_value(b.subrange(start, i)) + (b[i]
            - 48),
{
    assert(b.subrange(start, i + 1).drop_last() =~= b.subrange(start, i));
}

/// Reads the field in bytes `lo..hi` as `i64::from_str` would.
fn parse_stamp_field(b: &[u8], lo: usize, hi: usize) -> (r: Option<i64>)
    requires
        lo < hi <= b@.len(),
        hi - lo <= 4,
    ensures
        match r {
            Some(v) => stamp_field(b@, lo as int, hi as int) == Some(v as int),
            None => stamp_field(b@, lo as int, hi as int) is None,
        },
        r matches Some(v) ==> -1000 < v < 10000,
        r matches Some(v) ==> (hi - lo <= 2 ==> -10 < v < 100),
{
    let ghost field = b@.subrange(lo as int, hi as int);
    let first = b[lo];
    let signed = first == 43u8 || first == 45u8;
    let start: usize = if signed {
        lo + 1
    } else {
        lo
    };
    if start == hi {
        assert(field.drop_first().len() == 0);
        return None;
    }
    let mut value: i64 = 0;
    let mut i: usize = start;
    while i < hi
        invariant
            lo <= start < hi <= b@.len(),
            hi - lo <= 4,
            field == b@.subrange(lo as int, hi as int),
            signed == (b@[lo as int] == 43 || b@[lo as int] == 45),
            start == if signed { lo + 1 } else { lo as int },
            start <= i <= hi,
            value == digits_value(b@.subrange(start as int, i as int)),
            forall|k: int| start <= k < i ==> is_ascii_digit(#[trigger] b@[k]),
            0 <= value,
            i - start == 0 ==> value == 0,
            i - start <= 1 ==> value < 10,
            i - start <= 2 ==> value < 100,
            i - start <= 3 ==> value < 1000,
            value < 10000,
        decreases hi - i,
    {
        let c = b[i];
        if c < 48u8 || c > 57u8 {
            proof {
                if signed {
                    assert(field.drop_first()[i - lo - 1] == c);
                } else {
                    assert(field[i - lo] == c);
                }
            }
            return None;
        }
        proof {
            lemma_digits_step(b@, start as int, i as int);
        }
        value = value * 10 + (c - 48u8) as i64;
        i = i + 1;
    }
    proof {
        if signed {
            assert(field.drop_first() =~= b@.subrange(start as int, hi as int));
        } else {
            assert(field =~= b@.subrange(start as int, hi as int));
        }
    }
    if first == 45u8 {
        Some(-value)
    } else {
        Some(value)
    }
}

/// Days from 1970-01-01 to `year-month-day`, for the field values a stamp can hold.
pub fn days_from_civil_exec(year: i64, month: i64, day: i64) -> (days: i64)
    requires
        -1000 < year < 10000,
        -10 < month < 100,
        -10 < day < 100,
    ensures
        days == days_from_civil(year as int, month as int, day as int),
{
    let y = if month <= 2 {
        year - 1
    } else {
        year
    };
    let era = if y >= 0 {
        y / 400
    } else {
        -((399 - y) / 400)
    };
    let yoe = y - era * 400;
    let mp = if month > 2 {
        month - 3
    } else {
        month + 9
    };
    let doy = (153 * mp + 2) / 5 + day - 1;
    let doe = yoe * 365 + yoe / 4 - yoe / 100 + doy;
    era * 146097 + doe - 719468
}

/// Seconds since the epoch of the stamp in `bytes`, exactly as `iso_epoch_seconds` says.
pub fn epoch_from_iso_bytes(bytes: &[u8]) -> (r: Option<i64>)
    ensures
        match r {
            Some(v) => iso_epoch_seconds(bytes@) == Some(v as int),
            None => iso_epoch_seconds(bytes@) is None,
        },
{
    if bytes.len() < 19 {
        return None;
    }
    let year = match parse_stamp_field(bytes, 0, 4) {
        Some(v) => v,
        None => return None,
    };
    let month = match parse_stamp_field(bytes, 5, 7) {
        Some(v) => v,
        None => return None,
    };
    let day = match parse_stamp_field(bytes, 8, 10) {
        Some(v) => v,
        None => return None,
    };
    let hour = match parse_stamp_field(bytes, 11, 13) {
        Some(v) => v,
        None => return None,
    };
    let minute = match parse_stamp_field(bytes, 14, 16) {
        Some(v) => v,
        None => return None,
    };
    let second = match parse_stamp_field(bytes, 17, 19) {
        Some(v) => v,
        None => return None,
    };
    let days = days_from_civil_exec(year, month, day);
    Some(days * 86400 + hour * 3600 + minute * 60 + second)
}

/// Parses `YYYY-MM-DDTHH:MM:SS(.mmm)Z` to seconds since the Unix epoch; `None` when the
/// text does not read so.
pub fn parse_iso_utc_to_epoch(s: &str) -> (r: Option<i64>)
    ensures
        match r {
            Some(v) => iso_epoch_seconds_of_text(s@) == Some(v as int),
            None => iso_epoch_seconds_of_text(s@) is None,
        },
{
    epoch_from_iso_bytes(s.as_bytes())
}

} // verus!
