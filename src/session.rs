//! The session state machine (Initial, Running, Stopped) and the values
//! derived from it. Time is read as a monotonic clock in milliseconds that the
//! caller passes in as `now`.

use vstd::prelude::*;
use crate::api::{ApiRequest, ApiResponse, ApiResult};

verus! {

#[derive(Clone, Copy, Debug, PartialEq, Eq, Structural)]
pub enum Phase {
    Initial,
    Running,
    Stopped,
}

/// A key as the session sees it.
#[derive(Clone, Copy, Debug, PartialEq, Eq, Structural)]
pub enum Key {
    Char(char),
    /// `c` with Control held.
    CtrlC,
    Esc,
    Other,
}

/// What the caller has to do after a key.
pub enum Command {
    Nothing,
    Quit,
    /// Dispatch this request.
    Send(ApiRequest),
}

pub open spec fn is_quit(key: Key) -> bool {
    key == Key::CtrlC || key == Key::Esc || key == Key::Char('q')
}

/// A start (`workout_type` absent) or continue (`Some(2)`) request.
pub open spec fn start_request(user_id: String, workout_type: Option<i32>) -> ApiRequest {
    ApiRequest {
        user_id,
        workout_type,
        planned_time: None,
        actual_time: None,
        workout_date: None,
    }
}

/// The display tint of the current interval kind.
#[derive(Clone, Copy, Debug, PartialEq, Eq, Structural)]
pub enum StatusColor {
    Blue,
    Green,
    White,
}

/// The state of one session. All durations are in milliseconds.
pub struct App {
    pub phase: Phase,
    pub planned_time_ms: u64,
    /// The clock reading at which the running interval began.
    pub timer_start_ms: Option<u64>,
    /// Elapsed time frozen when the interval was finished; a whole number
    /// of seconds.
    pub elapsed_at_stop_ms: u64,
    /// 0 is work, 1 is a break, anything else has no label.
    pub current_type: Option<i32>,
    pub notified: bool,
    pub last_user_id: Option<String>,
    pub total_runs: u64,
    pub stat_work_ms: u64,
    pub stat_pause_ms: u64,
    /// Alternating work (even index) and break (odd index) durations.
    pub workouts: Vec<u64>,
    pub error: Option<String>,
    pub loading: bool,
}

/// `a - b`, or zero where `b` exceeds `a`.
pub open spec fn monus(a: nat, b: nat) -> nat {
    if a > b { (a - b) as nat } else { 0 }
}

pub open spec fn status_label(t: Option<i32>) -> Seq<char> {
    match t {
        Some(0) => "Work"@,
        Some(1) => "Break"@,
        _ => "-"@,
    }
}

pub open spec fn status_tint(t: Option<i32>) -> StatusColor {
    match t {
        Some(0) => StatusColor::Blue,
        Some(1) => StatusColor::Green,
        _ => StatusColor::White,
    }
}

pub open spec fn notification_message(t: Option<i32>) -> Seq<char> {
    match t {
        Some(0) => "Work phase complete!"@,
        Some(1) => "Break is over!"@,
        _ => "Timer complete!"@,
    }
}

/// The sum of the samples whose index has parity `p` (0 or 1).
pub open spec fn parity_sum(s: Seq<u64>, p: nat) -> nat
    decreases s.len(),
{
    if s.len() == 0 {
        0
    } else {
        parity_sum(s.drop_last(), p) + if (s.len() - 1) % 2 == p as int { s.last() as nat } else { 0 }
    }
}

/// The sum of all samples.
pub open spec fn total_sum(s: Seq<u64>) -> nat
    decreases s.len(),
{
    if s.len() == 0 {
        0
    } else {
        total_sum(s.drop_last()) + s.last() as nat
    }
}

proof fn lemma_parity_sum_bound(s: Seq<u64>, p: nat)
    ensures
        parity_sum(s, p) <= s.len() * (u64::MAX as nat),
    decreases s.len(),
{
    if s.len() > 0 {
        lemma_parity_sum_bound(s.drop_last(), p);
        assert((s.len() - 1) * (u64::MAX as nat) + u64::MAX as nat == s.len() * (u64::MAX as nat))
            by (nonlinear_arith);
    }
}

fn sum_parity(v: &Vec<u64>, p: usize) -> (r: u128)
    requires
        p < 2,
    ensures
        r == parity_sum(v@, p as nat),
{
    let mut sum: u128 = 0;
    let mut i: usize = 0;
    while i < v.len()
        invariant
            i <= v@.len(),
            p < 2,
            sum == parity_sum(v@.take(i as int), p as nat),
        decreases v@.len() - i,
    {
        let ghost pre = v@.take(i as int + 1);
        assert(pre.drop_last() =~= v@.take(i as int));
        proof {
            lemma_parity_sum_bound(v@.take(i as int), p as nat);
            assert(i as nat * (u64::MAX as nat) <= (usize::MAX as nat) * (u64::MAX as nat))
                by (nonlinear_arith) requires i <= usize::MAX;
        }
        if i % 2 == p {
            sum = sum + v[i] as u128;
        }
        i = i + 1;
    }
    assert(v@.take(v@.len() as int) =~= v@);
    sum
}

/// The value held, or zero.
pub open spec fn unwrap_or_zero(o: Option<u64>) -> u64 {
    match o {
        Some(n) => n,
        None => 0,
    }
}

impl App {
    /// A start instant is held exactly while running; a frozen elapsed time
    /// exists only while stopped, and is a whole number of seconds.
    pub open spec fn wf(&self) -> bool {
        &&& (self.timer_start_ms is Some <==> self.phase == Phase::Running)
        &&& (self.phase != Phase::Stopped ==> self.elapsed_at_stop_ms == 0)
        &&& self.elapsed_at_stop_ms % 1000 == 0
    }

    pub open spec fn elapsed_spec(&self, now: u64) -> nat {
        match self.phase {
            Phase::Running => match self.timer_start_ms {
                Some(start) => monus(now as nat, start as nat),
                None => 0,
            },
            Phase::Stopped => self.elapsed_at_stop_ms as nat,
            Phase::Initial => 0,
        }
    }

    pub open spec fn remaining_spec(&self, now: u64) -> nat {
        monus(self.planned_time_ms as nat, self.elapsed_spec(now))
    }

    /// Whole percent of the planned time that has elapsed, capped at 100;
    /// 0 where nothing is planned.
    pub open spec fn progress_spec(&self, now: u64) -> nat {
        if self.planned_time_ms == 0 {
            0
        } else {
            let p = self.elapsed_spec(now) * 100 / (self.planned_time_ms as nat);
            if p > 100 { 100 } else { p }
        }
    }

    /// A fresh session: Initial, nothing planned, no history.
    pub fn new() -> (r: App)
        ensures
            r.wf(),
            r.phase == Phase::Initial,
            r.planned_time_ms == 0,
            r.timer_start_ms is None,
            r.elapsed_at_stop_ms == 0,
            r.current_type is None,
            !r.notified,
            r.last_user_id is None,
            r.total_runs == 0,
            r.stat_work_ms == 0,
            r.stat_pause_ms == 0,
            r.workouts@.len() == 0,
            r.error is None,
            !r.loading,
    {
        App {
            phase: Phase::Initial,
            planned_time_ms: 0,
            timer_start_ms: None,
            elapsed_at_stop_ms: 0,
            current_type: None,
            notified: false,
            last_user_id: None,
            total_runs: 0,
            stat_work_ms: 0,
            stat_pause_ms: 0,
            workouts: Vec::new(),
            error: None,
            loading: false,
        }
    }

    /// Elapsed milliseconds: since the start while running, the frozen value
    /// while stopped, zero otherwise.
    pub fn elapsed_sec(&self, now: u64) -> (r: u64)
        ensures
            r == self.elapsed_spec(now),
    {
        match self.phase {
            Phase::Running => match self.timer_start_ms {
                Some(start) => now.saturating_sub(start),
                None => 0,
            },
            Phase::Stopped => self.elapsed_at_stop_ms,
            Phase::Initial => 0,
        }
    }

    /// Milliseconds left of the planned time, never negative.
    pub fn remaining_sec(&self, now: u64) -> (r: u64)
        ensures
            r == self.remaining_spec(now),
    {
        self.planned_time_ms.saturating_sub(self.elapsed_sec(now))
    }

    /// Progress through the planned time in whole percent, within 0..=100.
    pub fn progress_pct(&self, now: u64) -> (r: u64)
        ensures
            r == self.progress_spec(now),
            r <= 100,
    {
        if self.planned_time_ms > 0 {
            let e = self.elapsed_sec(now) as u128;
            let p: u128 = e * 100 / (self.planned_time_ms as u128);
            if p > 100 {
                100
            } else {
                p as u64
            }
        } else {
            0
        }
    }

    /// The state after a response: a workout starts a new running interval,
    /// stats overwrite the history, a sample list replaces the current run;
    /// each applies on its own, and any response ends loading and clears the
    /// error.
    pub open spec fn responded(self, resp: ApiResponse, now: u64) -> App {
        let started = resp.workout is Some;
        let w = resp.workout->Some_0;
        let st = resp.stats->Some_0;
        App {
            phase: if started { Phase::Running } else { self.phase },
            planned_time_ms: if started { unwrap_or_zero(w.planned_time) } else { self.planned_time_ms },
            timer_start_ms: if started { Some(now) } else { self.timer_start_ms },
            elapsed_at_stop_ms: if started { 0 } else { self.elapsed_at_stop_ms },
            current_type: if started { w.workout_type } else { self.current_type },
            notified: if started { false } else { self.notified },
            last_user_id: if started { w.user_id } else { self.last_user_id },
            total_runs: if resp.stats is Some { unwrap_or_zero(st.total_runs) } else { self.total_runs },
            stat_work_ms: if resp.stats is Some { unwrap_or_zero(st.work_count) } else { self.stat_work_ms },
            stat_pause_ms: if resp.stats is Some { unwrap_or_zero(st.pause_count) } else { self.stat_pause_ms },
            workouts: match resp.workouts {
                Some(v) => v,
                None => self.workouts,
            },
            error: None,
            loading: false,
        }
    }

    /// The state after a failed request: loading ends and the message is kept.
    pub open spec fn failed(self, msg: String) -> App {
        App { loading: false, error: Some(msg), ..self }
    }

    /// The state after finishing: stopped, with the elapsed time floored to
    /// whole seconds and the start instant cleared.
    pub open spec fn finished(self, now: u64) -> App {
        let frozen = match self.timer_start_ms {
            Some(start) => (monus(now as nat, start as nat) / 1000 * 1000) as u64,
            None => self.elapsed_at_stop_ms,
        };
        App { phase: Phase::Stopped, timer_start_ms: None, elapsed_at_stop_ms: frozen, ..self }
    }

    /// Whether a completion notification is owed: running, something
    /// planned, the planned time reached, and none sent yet.
    pub open spec fn notify_due(&self, now: u64) -> bool {
        &&& !self.notified
        &&& self.phase == Phase::Running
        &&& self.planned_time_ms > 0
        &&& self.elapsed_spec(now) >= self.planned_time_ms
    }

    /// Applies a decoded response.
    pub fn handle_response(&mut self, resp: ApiResponse, now: u64)
        requires
            old(self).wf(),
        ensures
            final(self).wf(),
            *final(self) == old(self).responded(resp, now),
    {
        self.loading = false;
        self.error = None;
        let ApiResponse { workout, stats, workouts } = resp;
        if let Some(w) = workout {
            self.last_user_id = w.user_id;
            self.planned_time_ms = match w.planned_time {
                Some(t) => t,
                None => 0,
            };
            self.current_type = w.workout_type;
            self.timer_start_ms = Some(now);
            self.notified = false;
            self.elapsed_at_stop_ms = 0;
            self.phase = Phase::Running;
        }
        if let Some(st) = stats {
            self.total_runs = match st.total_runs {
                Some(n) => n,
                None => 0,
            };
            self.stat_work_ms = match st.work_count {
                Some(n) => n,
                None => 0,
            };
            self.stat_pause_ms = match st.pause_count {
                Some(n) => n,
                None => 0,
            };
        }
        if let Some(v) = workouts {
            self.workouts = v;
        }
    }

    /// Applies the outcome of a request, success or failure.
    pub fn apply_result(&mut self, result: ApiResult, now: u64)
        requires
            old(self).wf(),
        ensures
            final(self).wf(),
            match result {
                ApiResult::Success(resp) => *final(self) == old(self).responded(resp, now),
                ApiResult::Error(msg) => *final(self) == old(self).failed(msg),
            },
    {
        match result {
            ApiResult::Success(resp) => self.handle_response(resp, now),
            ApiResult::Error(msg) => {
                self.loading = false;
                self.error = Some(msg);
            },
        }
    }

    /// Finishes the interval: the elapsed time is frozen at its floor in
    /// whole seconds and the phase becomes Stopped.
    pub fn stop_timer(&mut self, now: u64)
        requires
            old(self).wf(),
        ensures
            final(self).wf(),
            *final(self) == old(self).finished(now),
    {
        if let Some(start) = self.timer_start_ms {
            self.elapsed_at_stop_ms = now.saturating_sub(start) / 1000 * 1000;
        }
        self.timer_start_ms = None;
        self.phase = Phase::Stopped;
    }

    /// Reports, once per running interval, that the planned time is reached.
    pub fn check_notify(&mut self, now: u64) -> (r: bool)
        requires
            old(self).wf(),
        ensures
            final(self).wf(),
            r == old(self).notify_due(now),
            *final(self) == (App { notified: old(self).notified || r, ..*old(self) }),
    {
        if !self.notified && self.phase == Phase::Running && self.planned_time_ms > 0
            && self.elapsed_sec(now) >= self.planned_time_ms {
            self.notified = true;
            true
        } else {
            false
        }
    }

    /// Total work time of the current run (samples at even indices).
    pub fn run_work_sec(&self) -> (r: u128)
        ensures
            r == parity_sum(self.workouts@, 0),
    {
        sum_parity(&self.workouts, 0)
    }

    /// Total break time of the current run (samples at odd indices).
    pub fn run_pause_sec(&self) -> (r: u128)
        ensures
            r == parity_sum(self.workouts@, 1),
    {
        sum_parity(&self.workouts, 1)
    }

    /// The label of the current interval kind.
    pub fn status_text(&self) -> (r: &'static str)
        ensures
            r@ == status_label(self.current_type),
    {
        match self.current_type {
            Some(0) => "Work",
            Some(1) => "Break",
            _ => "-",
        }
    }

    /// The tint of the current interval kind.
    pub fn status_color(&self) -> (r: StatusColor)
        ensures
            r == status_tint(self.current_type),
    {
        match self.current_type {
            Some(0) => StatusColor::Blue,
            Some(1) => StatusColor::Green,
            _ => StatusColor::White,
        }
    }

    /// The text of the completion notification for the current interval kind.
    pub fn notification_text(&self) -> (r: &'static str)
        ensures
            r@ == notification_message(self.current_type),
    {
        match self.current_type {
            Some(0) => "Work phase complete!",
            Some(1) => "Break is over!",
            _ => "Timer complete!",
        }
    }

    /// Marks a request as in flight: loading, with the last error cleared.
    pub open spec fn requesting(self) -> App {
        App { loading: true, error: None, ..self }
    }

    /// The request that `n` sends for the next interval: the last user id or
    /// the fallback, the current kind, and the planned and frozen times in
    /// whole seconds.
    pub open spec fn next_request(self, fallback_user_id: String) -> ApiRequest {
        ApiRequest {
            user_id: match self.last_user_id {
                Some(u) => u,
                None => fallback_user_id,
            },
            workout_type: self.current_type,
            planned_time: Some((self.planned_time_ms / 1000) as i64),
            actual_time: Some((self.elapsed_at_stop_ms / 1000) as i64),
            workout_date: None,
        }
    }

    /// Decides what a key does. Only presses act; Ctrl-C, `q` and Escape
    /// quit in any phase; `s` and `c` request a start or a continuation
    /// while Initial, `f` finishes while Running, `n` requests the next
    /// interval while Stopped; the three requests wait for any request in
    /// flight.
    pub fn handle_key(
        &mut self,
        key: Key,
        pressed: bool,
        now: u64,
        user_id: &String,
        fallback_user_id: &String,
    ) -> (r: Command)
        requires
            old(self).wf(),
        ensures
            final(self).wf(),
            r is Send ==> !old(self).loading && final(self).loading && final(self).error is None,
            !pressed ==> r == Command::Nothing && *final(self) == *old(self),
            pressed && is_quit(key) ==> r == Command::Quit && *final(self) == *old(self),
            pressed && key == Key::Char('s') && old(self).phase == Phase::Initial
                && !old(self).loading ==> r == Command::Send(start_request(*user_id, None))
                && *final(self) == old(self).requesting(),
            pressed && key == Key::Char('c') && old(self).phase == Phase::Initial
                && !old(self).loading ==> r == Command::Send(start_request(*user_id, Some(2)))
                && *final(self) == old(self).requesting(),
            pressed && key == Key::Char('f') && old(self).phase == Phase::Running ==> r
                == Command::Nothing && *final(self) == old(self).finished(now),
            pressed && key == Key::Char('n') && old(self).phase == Phase::Stopped
                && !old(self).loading ==> r == Command::Send(old(self).next_request(*fallback_user_id))
                && *final(self) == old(self).requesting(),
            !(pressed && (is_quit(key)
                || (key == Key::Char('s') && old(self).phase == Phase::Initial && !old(self).loading)
                || (key == Key::Char('c') && old(self).phase == Phase::Initial && !old(self).loading)
                || (key == Key::Char('f') && old(self).phase == Phase::Running)
                || (key == Key::Char('n') && old(self).phase == Phase::Stopped && !old(self).loading)))
                ==> r == Command::Nothing && *final(self) == *old(self),
    {
        if !pressed {
            return Command::Nothing;
        }
        if key == Key::CtrlC || key == Key::Esc || key == Key::Char('q') {
            Command::Quit
        } else if key == Key::Char('s') && self.phase == Phase::Initial && !self.loading {
            self.loading = true;
            self.error = None;
            Command::Send(ApiRequest {
                user_id: user_id.clone(),
                workout_type: None,
                planned_time: None,
                actual_time: None,
                workout_date: None,
            })
        } else if key == Key::Char('c') && self.phase == Phase::Initial && !self.loading {
            self.loading = true;
            self.error = None;
            Command::Send(ApiRequest {
                user_id: user_id.clone(),
                workout_type: Some(2),
                planned_time: None,
                actual_time: None,
                workout_date: None,
            })
        } else if key == Key::Char('f') && self.phase == Phase::Running {
            self.stop_timer(now);
            Command::Nothing
        } else if key == Key::Char('n') && self.phase == Phase::Stopped && !self.loading {
            self.loading = true;
            self.error = None;
            let uid = match &self.last_user_id {
                Some(u) => u.clone(),
                None => fallback_user_id.clone(),
            };
            Command::Send(ApiRequest {
                user_id: uid,
                workout_type: self.current_type,
                planned_time: Some((self.planned_time_ms / 1000) as i64),
                actual_time: Some((self.elapsed_at_stop_ms / 1000) as i64),
                workout_date: None,
            })
        } else {
            Command::Nothing
        }
    }
}

} // verus!
