//! How long ago an object was created, as the command line tool shows it.
use crate::api::Timestamp;
use crate::decimal::{decimal, decimal_int, format_i64, format_u64};
use crate::text::push_str;
use vstd::prelude::*;
use vstd::string::*;

verus! {

/// Whether an instant lies within about thirty-four thousand years of the
/// Unix epoch, with a nanosecond part below one second: every such instant
/// is a `chrono::DateTime<Utc>`.
pub open spec fn representable(t: Timestamp) -> bool {
    -0x100_0000_0000 <= t.seconds <= 0x100_0000_0000 && t.nanos < 1_000_000_000
}

/// Tests whether an instant is representable, so that a caller can check
/// the precondition of the age functions before calling them.
pub fn is_representable(t: Timestamp) -> (r: bool)
    ensures
        r == representable(t),
{
    -0x100_0000_0000 <= t.seconds && t.seconds <= 0x100_0000_0000 && t.nanos < 1_000_000_000
}

/// The nanoseconds since the Unix epoch of an instant.
pub open spec fn total_nanos(t: Timestamp) -> int {
    t.seconds * 1_000_000_000 + t.nanos
}

/// Division rounded toward zero.
pub open spec fn trunc_div(x: int, d: int) -> int {
    if x >= 0 {
        x / d
    } else {
        -((-x) / d)
    }
}

/// The whole seconds from one instant to a later one, rounded toward zero
/// (negative when the first is the later).
pub open spec fn whole_seconds(now: Timestamp, since: Timestamp) -> int {
    trunc_div(total_nanos(now) - total_nanos(since), 1_000_000_000)
}

/// Builds both instants with `chrono::DateTime::<Utc>::from_timestamp`,
/// takes `signed_duration_since` and reads it with `TimeDelta::num_seconds`:
/// the whole seconds between them, rounded toward zero. Every
/// representable instant is accepted by `from_timestamp`.
#[verifier::external_body]
fn seconds_since(now: Timestamp, since: Timestamp) -> (r: i64)
    requires
        representable(now),
        representable(since),
    ensures
        r == whole_seconds(now, since),
{
    let now = chrono::DateTime::<chrono::Utc>::from_timestamp(now.seconds, now.nanos).unwrap();
    let since = chrono::DateTime::<chrono::Utc>::from_timestamp(since.seconds, since.nanos).unwrap();
    now.signed_duration_since(since).num_seconds()
}

/// An age of whole seconds as shown: in days, hours or minutes when it
/// amounts to at least one, else in seconds; negative seconds are shown as
/// zero when `clamp` holds.
pub open spec fn age_text(secs: int, clamp: bool) -> Seq<char> {
    if secs >= 86400 {
        decimal((secs / 86400) as nat) + "d"@
    } else if secs >= 3600 {
        decimal((secs / 3600) as nat) + "h"@
    } else if secs >= 60 {
        decimal((secs / 60) as nat) + "m"@
    } else if clamp && secs < 0 {
        "0s"@
    } else {
        decimal_int(secs) + "s"@
    }
}

/// The text of an age of whole seconds.
pub fn format_seconds_age(secs: i64, clamp: bool) -> (r: String)
    ensures
        r@ == age_text(secs as int, clamp),
{
    let (n, unit) = if secs >= 86400 {
        (secs / 86400, "d")
    } else if secs >= 3600 {
        (secs / 3600, "h")
    } else if secs >= 60 {
        (secs / 60, "m")
    } else if clamp && secs < 0 {
        (0, "s")
    } else {
        (secs, "s")
    };
    let mut r = if n >= 0 {
        format_u64(n as u64)
    } else {
        format_i64(n)
    };
    push_str(&mut r, unit);
    proof {
        reveal_strlit("0s");
        reveal_strlit("s");
        if clamp && secs < 0 && secs < 60 {
            assert(decimal(0) =~= seq!['0']);
            assert(r@ =~= "0s"@);
        }
    }
    r
}

/// The age shown in status tables: `Unknown` without a creation time.
pub open spec fn status_age(created: Option<Timestamp>, now: Timestamp) -> Seq<char> {
    match created {
        Some(t) => age_text(whole_seconds(now, t), true),
        None => "Unknown"@,
    }
}

/// The age of an object created at the given time, at `now`, for status
/// tables.
pub fn format_age(created: Option<Timestamp>, now: Timestamp) -> (r: String)
    requires
        representable(now),
        created matches Some(t) ==> representable(t),
    ensures
        r@ == status_age(created, now),
{
    match created {
        Some(t) => format_seconds_age(seconds_since(now, t), true),
        None => String::from_str("Unknown"),
    }
}

/// The age shown in listings: `<unknown>` without a creation time, and
/// negative seconds as they are.
pub open spec fn listing_age(created: Option<Timestamp>, now: Timestamp) -> Seq<char> {
    match created {
        Some(t) => age_text(whole_seconds(now, t), false),
        None => "<unknown>"@,
    }
}

/// The age of an object created at the given time, at `now`, for listings.
pub fn format_age_from_option(created: Option<Timestamp>, now: Timestamp) -> (r: String)
    requires
        representable(now),
        created matches Some(t) ==> representable(t),
    ensures
        r@ == listing_age(created, now),
{
    match created {
        Some(t) => format_seconds_age(seconds_since(now, t), false),
        None => String::from_str("<unknown>"),
    }
}

} // verus!
