//! How the tray viewer judges the status snapshot that the agent writes: its age, and
//! whether the agent counts as hung or gone.
use vstd::prelude::*;

use crate::clock::unix_now_seconds;
use crate::timestamp::{iso_epoch_seconds_of_text, parse_iso_utc_to_epoch};

verus! {

/// Seconds between two reads of the snapshot by the viewer.
pub const POLL_INTERVAL_SECS: u64 = 2;

/// A snapshot older than this, or this far in the future, counts as a hung or gone
/// agent. The agent rewrites it on every port scan, about every 10 s.
pub const STALE_AFTER_SECS: i64 = 40;

pub open spec fn status_file_text() -> Seq<char> {
    "C:\\ProgramData\\InnoApp Agent\\status.json"@
}

/// Where the agent writes its status snapshot.
pub fn status_file_path() -> (p: String)
    ensures
        p@ == status_file_text(),
{
    String::from_str("C:\\ProgramData\\InnoApp Agent\\status.json")
}

/// Seconds from the stamp `stamp` to the clock reading `now`, where both are known and
/// the difference fits in an `i64`.
pub open spec fn elapsed_seconds(stamp: Option<int>, now: Option<u64>) -> Option<int> {
    match (stamp, now) {
        (Some(ts), Some(n)) => if n <= i64::MAX && i64::MIN <= n - ts <= i64::MAX {
            Some(n - ts)
        } else {
            None
        },
        _ => None,
    }
}

/// Seconds from the stamp written as `text` to the clock reading `now`.
pub open spec fn elapsed_since_text(text: Seq<char>, now: Option<u64>) -> Option<int> {
    elapsed_seconds(iso_epoch_seconds_of_text(text), now)
}

/// An age that is unknown, or more than `STALE_AFTER_SECS` either way, is stale.
pub open spec fn is_stale_age(elapsed: Option<int>) -> bool {
    match elapsed {
        Some(secs) => secs > STALE_AFTER_SECS || secs < -STALE_AFTER_SECS,
        None => true,
    }
}

/// Seconds from the stamp `ts` to the clock reading `now_secs`; `None` where that does
/// not fit in an `i64`.
pub fn seconds_between(ts: i64, now_secs: u64) -> (r: Option<i64>)
    ensures
        r matches Some(e) ==> elapsed_seconds(Some(ts as int), Some(now_secs)) == Some(e as int),
        r is None ==> elapsed_seconds(Some(ts as int), Some(now_secs)) is None,
{
    if now_secs > i64::MAX as u64 {
        return None;
    }
    let now = now_secs as i64;
    now.checked_sub(ts)
}

/// Seconds from the stamp `written_at` to the clock reading `now_secs`; `None` if the
/// stamp does not parse, the clock gave nothing, or the difference does not fit.
pub fn seconds_since_iso_utc_at(written_at: &str, now_secs: Option<u64>) -> (r: Option<i64>)
    ensures
        r matches Some(e) ==> elapsed_since_text(written_at@, now_secs) == Some(e as int),
        r is None ==> elapsed_since_text(written_at@, now_secs) is None,
{
    let ts = match parse_iso_utc_to_epoch(written_at) {
        Some(ts) => ts,
        None => return None,
    };
    match now_secs {
        Some(now) => seconds_between(ts, now),
        None => None,
    }
}

/// Seconds from `written_at` (ISO 8601, UTC) to now by the system clock; `None` if it
/// could not be parsed.
pub fn seconds_since_iso_utc(written_at: &str) -> (r: Option<i64>)
    ensures
        iso_epoch_seconds_of_text(written_at@) is None ==> r is None,
        r matches Some(e) ==> exists|now: u64| #[trigger]
            elapsed_since_text(written_at@, Some(now)) == Some(e as int),
{
    let now = unix_now_seconds();
    let r = seconds_since_iso_utc_at(written_at, now);
    proof {
        if let Some(e) = r {
            let n = now.unwrap();
            assert(elapsed_since_text(written_at@, Some(n)) == Some(e as int));
        }
    }
    r
}

/// The verdict on a known or unknown age.
pub fn stale_verdict(elapsed: Option<i64>) -> (stale: bool)
    ensures
        stale == is_stale_age(match elapsed {
            Some(e) => Some(e as int),
            None => None,
        }),
{
    match elapsed {
        Some(secs) => secs > STALE_AFTER_SECS || secs < -STALE_AFTER_SECS,
        None => true,
    }
}

/// Whether a snapshot stamped `written_at` is stale at the clock reading `now_secs`.
pub fn is_stale_at(written_at: &str, now_secs: Option<u64>) -> (stale: bool)
    ensures
        stale == is_stale_age(elapsed_since_text(written_at@, now_secs)),
{
    stale_verdict(seconds_since_iso_utc_at(written_at, now_secs))
}

/// Whether a snapshot stamped `written_at` is stale now by the system clock. A stamp
/// that does not parse is always stale.
pub fn is_stale(written_at: &str) -> (stale: bool)
    ensures
        iso_epoch_seconds_of_text(written_at@) is None ==> stale,
        stale || exists|now: u64| #[trigger]
            elapsed_since_text(written_at@, Some(now)) matches Some(e) && -STALE_AFTER_SECS <= e
                <= STALE_AFTER_SECS,
        exists|now: Option<u64>|
            stale == is_stale_age(#[trigger] elapsed_since_text(written_at@, now)),
{
    let now = unix_now_seconds();
    let stale = is_stale_at(written_at, now);
    proof {
        assert(stale == is_stale_age(elapsed_since_text(written_at@, now)));
        if !stale {
            let n = now.unwrap();
            assert(elapsed_since_text(written_at@, Some(n)) matches Some(e) && -STALE_AFTER_SECS
                <= e <= STALE_AFTER_SECS);
        }
    }
    stale
}

} // verus!
