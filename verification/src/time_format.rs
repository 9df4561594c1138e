//! Wall-clock rendering of event timestamps as `HH:MM:SS.mmm`.

use vstd::prelude::*;
use vstd::string::StringExecFns;
use crate::fmt::{spec_dec_padded, u64_to_dec_padded};

verus! {

/// The text of a millisecond timestamp: hours (mod 24), minutes, seconds
/// and milliseconds, each zero-padded to fixed width.
pub open spec fn spec_timestamp_text(t: int) -> Seq<char> {
    let millis = t % 1000;
    let total_seconds = t / 1000;
    let seconds = total_seconds % 60;
    let total_minutes = total_seconds / 60;
    let minutes = total_minutes % 60;
    let hours = (total_minutes / 60) % 24;
    spec_dec_padded(hours, 2) + ":"@ + spec_dec_padded(minutes, 2) + ":"@ + spec_dec_padded(
        seconds,
        2,
    ) + "."@ + spec_dec_padded(millis, 3)
}

/// Render a millisecond timestamp as `HH:MM:SS.mmm`, the hour wrapped at
/// one day.
pub fn format_timestamp_ms(timestamp_ms: u64) -> (r: String)
    ensures
        r@ == spec_timestamp_text(timestamp_ms as int),
{
    let millis = timestamp_ms % 1_000;
    let total_seconds = timestamp_ms / 1_000;
    let seconds = total_seconds % 60;
    let total_minutes = total_seconds / 60;
    let minutes = total_minutes % 60;
    let hours = (total_minutes / 60) % 24;

    let mut s = u64_to_dec_padded(hours, 2);
    s.append(":");
    let m = u64_to_dec_padded(minutes, 2);
    s.append(m.as_str());
    s.append(":");
    let sec = u64_to_dec_padded(seconds, 2);
    s.append(sec.as_str());
    s.append(".");
    let ms = u64_to_dec_padded(millis, 3);
    s.append(ms.as_str());
    assert(s@ =~= spec_timestamp_text(timestamp_ms as int));
    s
}

} // verus!
