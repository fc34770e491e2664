//! Collision-avoiding upload names: a second-granularity timestamp,
//! rendered as `YYYYMMDD_HHMMSS`, is inserted immediately before the
//! filename's extension, or appended to the stem if there is none.

use vstd::prelude::*;
use vstd::string::StrSliceExecFns;
use vstd::string::StringExecFns;

use chrono::Datelike;
use chrono::Timelike;

verus! {

/// A wall-clock instant at second granularity, as plain calendar fields.
pub struct Timestamp {
    pub year: u32,
    pub month: u32,
    pub day: u32,
    pub hour: u32,
    pub minute: u32,
    pub second: u32,
}

/// Validity of a timestamp: calendar fields in range, and a year that four
/// decimal digits can carry.
pub open spec fn timestamp_wf(ts: Timestamp) -> bool {
    &&& ts.year <= 9999
    &&& 1 <= ts.month <= 12
    &&& 1 <= ts.day <= 31
    &&& ts.hour <= 23
    &&& ts.minute <= 59
    &&& ts.second <= 59
}

impl Timestamp {
    /// Builds a valid timestamp from raw clock fields, rejecting any field
    /// out of range (in particular a year that four digits cannot carry).
    pub fn from_parts(
        year: i32,
        month: u32,
        day: u32,
        hour: u32,
        minute: u32,
        second: u32,
    ) -> (r: Option<Timestamp>)
        ensures
            r matches Some(ts) ==> timestamp_wf(ts) && ts.year as int == year as int && ts.month
                == month && ts.day == day && ts.hour == hour && ts.minute == minute && ts.second == second,
            r is None <==> !(0 <= year <= 9999 && 1 <= month <= 12 && 1 <= day <= 31 && hour <= 23
                && minute <= 59 && second <= 59),
    {
        if 0 <= year && year <= 9999 && 1 <= month && month <= 12 && 1 <= day && day <= 31 && hour
            <= 23 && minute <= 59 && second <= 59 {
            Some(Timestamp { year: year as u32, month, day, hour, minute, second })
        } else {
            None
        }
    }
}

/// The decimal digit character for a value below ten.
pub open spec fn spec_digit_char(d: int) -> char {
    if d == 0 {
        '0'
    } else if d == 1 {
        '1'
    } else if d == 2 {
        '2'
    } else if d == 3 {
        '3'
    } else if d == 4 {
        '4'
    } else if d == 5 {
        '5'
    } else if d == 6 {
        '6'
    } else if d == 7 {
        '7'
    } else if d == 8 {
        '8'
    } else {
        '9'
    }
}

/// A value below one hundred as two decimal digits, zero-padded.
pub open spec fn spec_two_digits(n: int) -> Seq<char> {
    seq![spec_digit_char(n / 10), spec_digit_char(n % 10)]
}

/// A value below ten thousand as four decimal digits, zero-padded.
pub open spec fn spec_four_digits(n: int) -> Seq<char> {
    seq![
        spec_digit_char(n / 1000),
        spec_digit_char((n / 100) % 10),
        spec_digit_char((n / 10) % 10),
        spec_digit_char(n % 10),
    ]
}

/// The fifteen characters `YYYYMMDD_HHMMSS` of a timestamp.
pub open spec fn spec_timestamp_chars(ts: Timestamp) -> Seq<char> {
    spec_four_digits(ts.year as int) + spec_two_digits(ts.month as int) + spec_two_digits(
        ts.day as int,
    ) + seq!['_'] + spec_two_digits(ts.hour as int) + spec_two_digits(ts.minute as int)
        + spec_two_digits(ts.second as int)
}

/// The one-character string for a decimal digit.
fn digit_str(d: u32) -> (r: &'static str)
    requires
        d <= 9,
    ensures
        r@.len() == 1,
        r@[0] == spec_digit_char(d as int),
{
    if d == 0 {
        proof {
            reveal_strlit("0");
        }
        "0"
    } else if d == 1 {
        proof {
            reveal_strlit("1");
        }
        "1"
    } else if d == 2 {
        proof {
            reveal_strlit("2");
        }
        "2"
    } else if d == 3 {
        proof {
            reveal_strlit("3");
        }
        "3"
    } else if d == 4 {
        proof {
            reveal_strlit("4");
        }
        "4"
    } else if d == 5 {
        proof {
            reveal_strlit("5");
        }
        "5"
    } else if d == 6 {
        proof {
            reveal_strlit("6");
        }
        "6"
    } else if d == 7 {
        proof {
            reveal_strlit("7");
        }
        "7"
    } else if d == 8 {
        proof {
            reveal_strlit("8");
        }
        "8"
    } else {
        proof {
            reveal_strlit("9");
        }
        "9"
    }
}

/// Renders a timestamp as its fifteen `YYYYMMDD_HHMMSS` characters.
pub fn format_timestamp(ts: &Timestamp) -> (r: String)
    requires
        timestamp_wf(*ts),
    ensures
        r@ == spec_timestamp_chars(*ts),
{
    let mut s = String::new();
    s.append(digit_str(ts.year / 1000));
    s.append(digit_str((ts.year / 100) % 10));
    s.append(digit_str((ts.year / 10) % 10));
    s.append(digit_str(ts.year % 10));
    s.append(digit_str(ts.month / 10));
    s.append(digit_str(ts.month % 10));
    s.append(digit_str(ts.day / 10));
    s.append(digit_str(ts.day % 10));
    s.append("_");
    s.append(digit_str(ts.hour / 10));
    s.append(digit_str(ts.hour % 10));
    s.append(digit_str(ts.minute / 10));
    s.append(digit_str(ts.minute % 10));
    s.append(digit_str(ts.second / 10));
    s.append(digit_str(ts.second % 10));
    proof {
        reveal_strlit("_");
        assert(s@ =~= spec_timestamp_chars(*ts));
    }
    s
}

/// The position of the dot that separates a filename's extension: the last
/// dot, except that a dot in the leading position marks no extension.
pub open spec fn spec_last_dot(s: Seq<char>) -> Option<int>
    decreases s.len(),
{
    if s.len() <= 1 {
        None
    } else if s[s.len() - 1] == '.' {
        Some(s.len() - 1)
    } else {
        spec_last_dot(s.drop_last())
    }
}

/// The extension separator, when there is one, lies strictly inside the
/// name and carries a dot.
pub proof fn lemma_last_dot_bounds(s: Seq<char>)
    ensures
        spec_last_dot(s) matches Some(i) ==> 1 <= i < s.len() && s[i] == '.',
    decreases s.len(),
{
    if s.len() <= 1 {
    } else if s[s.len() - 1] == '.' {
    } else {
        lemma_last_dot_bounds(s.drop_last());
    }
}

/// Finds the extension separator of a filename.
fn last_dot(name: &str) -> (r: Option<usize>)
    ensures
        r matches Some(i) ==> spec_last_dot(name@) == Some(i as int),
        r is None ==> spec_last_dot(name@) is None,
{
    let n = name.unicode_len();
    proof {
        assert(name@.take(n as int) =~= name@);
    }
    let mut j: usize = n;
    while j > 1
        invariant
            j <= n,
            n == name@.len(),
            spec_last_dot(name@) == spec_last_dot(name@.take(j as int)),
        decreases j,
    {
        let c = name.get_char(j - 1);
        if c == '.' {
            proof {
                assert(name@.take(j as int).len() == j);
                assert(name@.take(j as int)[j - 1] == name@[j - 1]);
            }
            return Some(j - 1);
        }
        proof {
            assert(name@.take(j as int)[j - 1] == name@[j - 1]);
            assert(name@.take(j as int).drop_last() =~= name@.take(j as int - 1));
        }
        j = j - 1;
    }
    None
}

/// A filename with the timestamp inserted immediately before its extension
/// separator, or appended to the whole name when it has no extension.
pub open spec fn spec_stamped(name: Seq<char>, ts: Timestamp) -> Seq<char> {
    match spec_last_dot(name) {
        Some(i) => name.subrange(0, i) + seq!['_'] + spec_timestamp_chars(ts) + name.subrange(
            i,
            name.len() as int,
        ),
        None => name + seq!['_'] + spec_timestamp_chars(ts),
    }
}

/// Builds the collision-avoiding upload name for a local filename and a
/// timestamp: `backup.tar` becomes `backup_YYYYMMDD_HHMMSS.tar`, and a name
/// without an extension gets the timestamp appended.
pub fn stamped_filename(name: &str, ts: &Timestamp) -> (r: String)
    requires
        timestamp_wf(*ts),
    ensures
        r@ == spec_stamped(name@, *ts),
{
    let n = name.unicode_len();
    let stamp = format_timestamp(ts);
    match last_dot(name) {
        Some(i) => {
            proof {
                lemma_last_dot_bounds(name@);
            }
            let stem = name.substring_char(0, i);
            let rest = name.substring_char(i, n);
            let mut out = stem.to_owned();
            out.append("_");
            out.append(stamp.as_str());
            out.append(rest);
            proof {
                reveal_strlit("_");
                assert(out@ =~= spec_stamped(name@, *ts));
            }
            out
        },
        None => {
            let mut out = name.to_owned();
            out.append("_");
            out.append(stamp.as_str());
            proof {
                reveal_strlit("_");
                assert(out@ =~= spec_stamped(name@, *ts));
            }
            out
        },
    }
}

/// Relies on std::time::SystemTime::now, chrono::DateTime::from_timestamp
/// and chrono's calendar accessors, which document these ranges: month 1
/// to 12, day 1 to 31, hour 0 to 23, minute 0 to 59, second 0 to 59. A
/// clock before the Unix epoch or beyond chrono's representable range is
/// `None`; every path here returns, none panics.
#[verifier::external_body]
fn utc_now_parts() -> (r: Option<(i32, u32, u32, u32, u32, u32)>)
    ensures
        r matches Some(p) ==> 1 <= p.1 <= 12 && 1 <= p.2 <= 31 && p.3 <= 23 && p.4 <= 59 && p.5
            <= 59,
{
    let since_epoch = std::time::SystemTime::now().duration_since(std::time::UNIX_EPOCH).ok()?;
    let secs = i64::try_from(since_epoch.as_secs()).ok()?;
    let now = chrono::DateTime::<chrono::Utc>::from_timestamp(secs, 0)?;
    Some((now.year(), now.month(), now.day(), now.hour(), now.minute(), now.second()))
}

/// The current wall clock as a valid timestamp: `None` when the system
/// clock lies before the Unix epoch, beyond the representable range, or
/// in a year that four decimal digits cannot carry.
pub fn current_timestamp() -> (r: Option<Timestamp>)
    ensures
        r matches Some(ts) ==> timestamp_wf(ts),
{
    match utc_now_parts() {
        Some((year, month, day, hour, minute, second)) => Timestamp::from_parts(
            year,
            month,
            day,
            hour,
            minute,
            second,
        ),
        None => None,
    }
}

/// Builds the collision-avoiding upload name for the current wall-clock
/// time. `None` only when the clock cannot be read as a valid timestamp.
pub fn add_dt_to_filename(name: &str) -> (r: Option<String>)
    ensures
        r matches Some(s) ==> exists|ts: Timestamp|
            timestamp_wf(ts) && s@ == spec_stamped(name@, ts),
{
    match current_timestamp() {
        Some(ts) => {
            let out = stamped_filename(name, &ts);
            proof {
                assert(timestamp_wf(ts) && out@ == spec_stamped(name@, ts));
            }
            Some(out)
        },
        None => None,
    }
}

} // verus!
