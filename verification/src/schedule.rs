//! What a whole run of polls does to the timer.
//!
//! The polling task wakes at its own pace: often, late, or several seconds
//! at once. These statements hold of every sequence of clock readings it may
//! bring.

use crate::state::{lemma_polled_well_formed, TimerState, TimerStatus};
use vstd::prelude::*;

verus! {

/// The timer after it was polled at each of the clock readings in turn.
pub open spec fn polled_all(s: TimerState, times: Seq<u64>) -> TimerState
    decreases times.len(),
{
    if times.len() == 0 {
        s
    } else {
        polled_all(s.polled(times[0]).next, times.drop_first())
    }
}

/// How often completion was signalled while the timer was polled at each of
/// the clock readings in turn.
pub open spec fn completions(s: TimerState, times: Seq<u64>) -> nat
    decreases times.len(),
{
    if times.len() == 0 {
        0
    } else {
        let signalled: nat = if s.polled(times[0]).effects.finished {
            1
        } else {
            0
        };
        signalled + completions(s.polled(times[0]).next, times.drop_first())
    }
}

/// Whether the countdown of `s` is spent at one of the clock readings.
pub open spec fn spent_at_some(s: TimerState, times: Seq<u64>) -> bool {
    exists|i: int| 0 <= i < times.len() && s.session.spent_at(#[trigger] times[i])
}

/// A timer that is not running signals nothing, however it is polled, and
/// is left as it was.
pub proof fn lemma_idle_polls_are_silent(s: TimerState, times: Seq<u64>)
    requires
        s.status != TimerStatus::Running,
    ensures
        completions(s, times) == 0,
        polled_all(s, times) == s,
    decreases times.len(),
{
    if times.len() > 0 {
        lemma_idle_polls_are_silent(s, times.drop_first());
    }
}

/// However the polls fall, a running timer signals completion at most once:
/// once if one of the polls comes when the whole duration has run, and not
/// at all if none does. It is finished in the first case and still running
/// in the second, and well formed in both.
pub proof fn lemma_completion_is_signalled_once(s: TimerState, times: Seq<u64>)
    requires
        s.well_formed(),
        s.status == TimerStatus::Running,
    ensures
        completions(s, times) <= 1,
        completions(s, times) == 1 <==> spent_at_some(s, times),
        spent_at_some(s, times) ==> polled_all(s, times).status == TimerStatus::Finished,
        !spent_at_some(s, times) ==> polled_all(s, times).status == TimerStatus::Running
            && polled_all(s, times).session == s.session,
        polled_all(s, times).well_formed(),
    decreases times.len(),
{
    if times.len() > 0 {
        let next = s.polled(times[0]).next;
        let rest = times.drop_first();
        lemma_polled_well_formed(s, times[0]);
        if s.session.spent_at(times[0]) {
            lemma_idle_polls_are_silent(next, rest);
            assert(spent_at_some(s, times));
        } else {
            lemma_completion_is_signalled_once(next, rest);
            assert(next.session == s.session);
            if spent_at_some(next, rest) {
                let i = choose|i: int| 0 <= i < rest.len() && next.session.spent_at(
                    #[trigger] rest[i],
                );
                assert(rest[i] == times[i + 1]);
                assert(spent_at_some(s, times));
            }
            if spent_at_some(s, times) {
                let i = choose|i: int| 0 <= i < times.len() && s.session.spent_at(
                    #[trigger] times[i],
                );
                assert(i > 0);
                assert(times[i] == rest[i - 1]);
                assert(spent_at_some(next, rest));
            }
        }
    }
}

/// Polling a well-formed timer keeps it well formed, whatever its state.
pub proof fn lemma_polls_keep_well_formed(s: TimerState, times: Seq<u64>)
    requires
        s.well_formed(),
    ensures
        polled_all(s, times).well_formed(),
        completions(s, times) <= 1,
    decreases times.len(),
{
    if s.status == TimerStatus::Running {
        lemma_completion_is_signalled_once(s, times);
    } else {
        lemma_idle_polls_are_silent(s, times);
    }
}

} // verus!
