//! Properties that relate several operations of a session.

use vstd::prelude::*;
use crate::api::ApiResponse;
use crate::session::{parity_sum, total_sum, unwrap_or_zero, App, Phase};

verus! {

/// Right after a workout with planned time `d` is received, the whole of `d`
/// remains; once the elapsed time reaches the planned time, nothing remains,
/// never a negative amount.
pub proof fn lemma_remaining_time(a: App, resp: ApiResponse, now: u64, later: u64)
    requires
        a.wf(),
        resp.workout is Some,
    ensures
        a.responded(resp, now).elapsed_spec(now) == 0,
        a.responded(resp, now).remaining_spec(now) == unwrap_or_zero(
            resp.workout->Some_0.planned_time,
        ),
        a.responded(resp, now).elapsed_spec(later) >= a.responded(resp, now).planned_time_ms
            ==> a.responded(resp, now).remaining_spec(later) == 0,
        a.elapsed_spec(later) >= a.planned_time_ms ==> a.remaining_spec(later) == 0,
{
}

/// The progress percentage lies within 0..=100 however far the elapsed time
/// runs past the planned time.
pub proof fn lemma_progress_bounded(a: App, now: u64)
    ensures
        0 <= a.progress_spec(now) <= 100,
        a.planned_time_ms > 0 && a.elapsed_spec(now) >= a.planned_time_ms ==> a.progress_spec(now)
            == 100,
{
    if a.planned_time_ms > 0 && a.elapsed_spec(now) >= a.planned_time_ms {
        let e = a.elapsed_spec(now);
        let p = a.planned_time_ms as nat;
        assert(e * 100 / p >= 100) by (nonlinear_arith)
            requires e >= p, p > 0;
    }
}

/// A notification fires at most once per running interval: once a check has
/// fired, no later check fires, until a response starts a new interval,
/// which clears the mark.
pub proof fn lemma_notify_once(a: App, now: u64, later: u64, resp: ApiResponse, at: u64)
    requires
        a.wf(),
    ensures
        a.notify_due(now) ==> !(App { notified: a.notified || a.notify_due(now), ..a }).notify_due(
            later,
        ),
        a.notified ==> !a.notify_due(later),
        resp.workout is Some ==> !a.responded(resp, at).notified,
{
}

/// Finishing freezes the elapsed time at its floor in whole seconds at the
/// moment of the call; the passing of time does not change it afterwards.
pub proof fn lemma_finish_freezes(a: App, now: u64, later: u64)
    requires
        a.wf(),
        a.phase == Phase::Running,
    ensures
        a.finished(now).elapsed_spec(later) == a.elapsed_spec(now) / 1000 * 1000,
        a.finished(now).elapsed_spec(later) == a.finished(now).elapsed_spec(now),
        a.finished(now).wf(),
{
    let e = a.elapsed_spec(now);
    assert(e / 1000 * 1000 <= e) by (nonlinear_arith);
    assert((e / 1000 * 1000) % 1000 == 0) by (nonlinear_arith);
}

/// Work time plus break time of a run is the sum of all its samples, for
/// any list, empty and odd-length ones included.
pub proof fn lemma_work_plus_pause(s: Seq<u64>)
    ensures
        parity_sum(s, 0) + parity_sum(s, 1) == total_sum(s),
    decreases s.len(),
{
    if s.len() > 0 {
        lemma_work_plus_pause(s.drop_last());
    }
}

} // verus!
