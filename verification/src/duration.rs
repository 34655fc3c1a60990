//! Playback positions: from the platform's tick count to readable text.

use human_repr::HumanDuration;
use vstd::prelude::*;

verus! {

/// How many ticks of the platform's timeline make one second: a tick lasts
/// 100 nanoseconds.
pub const TICKS_PER_SECOND: i64 = 10_000_000;

/// The whole seconds in `ticks`, rounded toward zero.
pub open spec fn whole_seconds(ticks: i64) -> int {
    if ticks >= 0 {
        ticks as int / TICKS_PER_SECOND as int
    } else {
        -((-(ticks as int)) / TICKS_PER_SECOND as int)
    }
}

/// The whole seconds of a position are the ticks divided by the ticks of one
/// second, and what is left over is less than a second and lies on the side
/// of zero on which the ticks lie.
pub proof fn law_whole_seconds_round_toward_zero(ticks: i64)
    ensures
        ticks >= 0 ==> 0 <= ticks - whole_seconds(ticks) * TICKS_PER_SECOND < TICKS_PER_SECOND,
        ticks <= 0 ==> -TICKS_PER_SECOND < ticks - whole_seconds(ticks) * TICKS_PER_SECOND <= 0,
        i64::MIN <= whole_seconds(ticks) <= i64::MAX,
{
}

/// Converts a position on the platform's timeline to whole seconds.
pub fn ticks_to_seconds(ticks: i64) -> (seconds: i64)
    ensures
        seconds == whole_seconds(ticks),
{
    ticks / TICKS_PER_SECOND
}

/// The text that `human_repr` writes for a duration of `seconds` whole seconds.
pub uninterp spec fn human_duration_text(seconds: int) -> Seq<char>;

/// How a duration of zero is written: the text that stands for "no position".
pub open spec fn zero_text() -> Seq<char> {
    seq!['0', 'n', 's']
}

/// Calls `human_repr::HumanDuration::human_duration` on a number of seconds
/// and takes what the `Display` of the value it returns writes.
///
/// Not proved: that the text depends on the number alone, that zero seconds
/// are written as `0ns`, and that no other number of whole seconds is: a
/// second or more is written in a larger unit than the nanosecond.
#[verifier::external_body]
pub(crate) fn human_duration(seconds: i64) -> (text: String)
    ensures
        text@ == human_duration_text(seconds as int),
        seconds == 0 ==> text@ == zero_text(),
        seconds != 0 ==> text@ != zero_text(),
{
    seconds.human_duration().to_string()
}

/// Renders a position on the platform's timeline: the ticks are brought to
/// whole seconds first, and the seconds are then written out.
pub fn render_position(ticks: i64) -> (text: String)
    ensures
        text@ == human_duration_text(whole_seconds(ticks)),
        text@ == zero_text() <==> -TICKS_PER_SECOND < ticks < TICKS_PER_SECOND,
{
    human_duration(ticks_to_seconds(ticks))
}

} // verus!
