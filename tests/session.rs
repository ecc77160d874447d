use arrabbiata::api::{response_outcome, ApiRequest, ApiResponse, ApiResult, Stats, Workout};
use arrabbiata::duration::fmt_dur;
use arrabbiata::session::{App, Command, Key, Phase, StatusColor};

fn workout_response(planned_ms: u64, kind: i32, user: Option<&str>) -> ApiResponse {
    let mut r = ApiResponse::empty();
    r.workout = Some(Workout {
        user_id: user.map(|u| u.to_string()),
        planned_time: Some(planned_ms),
        workout_type: Some(kind),
    });
    r
}

fn running(planned_ms: u64, kind: i32, start: u64) -> App {
    let mut app = App::new();
    app.handle_response(workout_response(planned_ms, kind, Some("u1")), start);
    app
}

fn ids() -> (String, String) {
    ("main-user".to_string(), "fallback-user".to_string())
}

#[test]
fn new_session_is_initial_and_empty() {
    let app = App::new();
    assert_eq!(app.phase, Phase::Initial);
    assert_eq!(app.elapsed_sec(12_345), 0);
    assert_eq!(app.remaining_sec(12_345), 0);
    assert_eq!(app.progress_pct(12_345), 0);
    assert_eq!(app.status_text(), "-");
    assert!(!app.loading);
    assert!(app.error.is_none());
}

#[test]
fn remaining_equals_planned_at_start_and_zero_after() {
    for d in [0u64, 1, 999, 1_500_000, u64::MAX / 2] {
        let app = running(d, 0, 10_000);
        assert_eq!(app.elapsed_sec(10_000), 0);
        assert_eq!(app.remaining_sec(10_000), d);
        assert_eq!(app.remaining_sec(10_000 + d), 0);
        assert_eq!(app.remaining_sec(u64::MAX), 0);
    }
    let app = running(1_500_000, 0, 0);
    assert_eq!(app.remaining_sec(400_500), 1_099_500);
}

#[test]
fn progress_stays_within_percent_bounds() {
    let app = running(1_000, 0, 0);
    assert_eq!(app.progress_pct(0), 0);
    assert_eq!(app.progress_pct(500), 50);
    assert_eq!(app.progress_pct(999), 99);
    assert_eq!(app.progress_pct(1_000), 100);
    assert_eq!(app.progress_pct(1_000_000), 100);
    assert_eq!(app.progress_pct(u64::MAX), 100);
    let idle = running(0, 0, 0);
    assert_eq!(idle.progress_pct(5_000), 0);
}

#[test]
fn notify_fires_once_when_planned_time_reached() {
    let mut app = running(1_500_000, 0, 0);
    assert!(!app.check_notify(1_499_999));
    assert!(app.check_notify(1_500_000));
    assert!(!app.check_notify(1_500_000));
    assert!(!app.check_notify(3_000_000));
    assert!(app.notified);
    app.handle_response(workout_response(1_000, 1, None), 3_000_000);
    assert!(!app.notified);
    assert!(app.check_notify(3_001_000));
    assert!(!app.check_notify(3_002_000));
}

#[test]
fn notify_never_fires_without_plan_or_when_not_running() {
    let mut app = running(0, 0, 0);
    assert!(!app.check_notify(10_000_000));
    let mut fresh = App::new();
    assert!(!fresh.check_notify(10_000_000));
    let mut stopped = running(1_000, 0, 0);
    stopped.stop_timer(5_000);
    assert!(!stopped.check_notify(10_000));
}

#[test]
fn finish_freezes_floor_of_elapsed() {
    let mut app = running(60_000, 0, 1_000);
    app.stop_timer(3_750);
    assert_eq!(app.phase, Phase::Stopped);
    assert_eq!(app.elapsed_at_stop_ms, 2_000);
    assert!(app.timer_start_ms.is_none());
    assert_eq!(app.elapsed_sec(3_750), 2_000);
    assert_eq!(app.elapsed_sec(999_999), 2_000);
    assert_eq!(app.remaining_sec(999_999), 58_000);
    assert_eq!(app.progress_pct(999_999), 3);
}

#[test]
fn run_totals_split_by_parity() {
    let mut app = App::new();
    assert_eq!(app.run_work_sec(), 0);
    assert_eq!(app.run_pause_sec(), 0);
    let mut r = ApiResponse::empty();
    r.workouts = Some(vec![10, 20, 30]);
    app.handle_response(r, 0);
    assert_eq!(app.run_work_sec(), 40);
    assert_eq!(app.run_pause_sec(), 20);
    assert_eq!(app.run_work_sec() + app.run_pause_sec(), 60);
    let mut r = ApiResponse::empty();
    r.workouts = Some(vec![u64::MAX, 1, u64::MAX, 2]);
    app.handle_response(r, 0);
    assert_eq!(app.run_work_sec(), 2 * (u64::MAX as u128));
    assert_eq!(app.run_pause_sec(), 3);
}

#[test]
fn start_key_then_workout_response_runs_work_interval() {
    let (user, fallback) = ids();
    let mut app = App::new();
    match app.handle_key(Key::Char('s'), true, 0, &user, &fallback) {
        Command::Send(req) => {
            assert_eq!(req.user_id, "main-user");
            assert_eq!(req.workout_type, None);
            assert_eq!(req.planned_time, None);
            assert_eq!(req.actual_time, None);
            assert!(req.workout_date.is_none());
        }
        _ => panic!("start key must dispatch a request"),
    }
    assert!(app.loading);
    assert_eq!(app.phase, Phase::Initial);
    // A second start while loading does nothing.
    assert!(matches!(app.handle_key(Key::Char('s'), true, 0, &user, &fallback), Command::Nothing));
    app.apply_result(ApiResult::Success(workout_response(1_500_000, 0, Some("u7"))), 42_000);
    assert_eq!(app.phase, Phase::Running);
    assert_eq!(app.status_text(), "Work");
    assert_eq!(app.status_color(), StatusColor::Blue);
    assert_eq!(app.elapsed_sec(42_000), 0);
    assert_eq!(app.planned_time_ms, 1_500_000);
    assert_eq!(app.last_user_id.as_deref(), Some("u7"));
    assert!(!app.loading);
}

#[test]
fn continue_key_sends_type_two() {
    let (user, fallback) = ids();
    let mut app = App::new();
    match app.handle_key(Key::Char('c'), true, 0, &user, &fallback) {
        Command::Send(ApiRequest { user_id, workout_type, .. }) => {
            assert_eq!(user_id, "main-user");
            assert_eq!(workout_type, Some(2));
        }
        _ => panic!("continue key must dispatch a request"),
    }
    assert!(app.loading);
}

#[test]
fn next_key_sends_planned_and_actual_seconds() {
    let (user, fallback) = ids();
    let mut app = running(1_500_500, 1, 0);
    assert!(matches!(app.handle_key(Key::Char('f'), true, 61_900, &user, &fallback), Command::Nothing));
    assert_eq!(app.phase, Phase::Stopped);
    match app.handle_key(Key::Char('n'), true, 70_000, &user, &fallback) {
        Command::Send(req) => {
            assert_eq!(req.user_id, "u1");
            assert_eq!(req.workout_type, Some(1));
            assert_eq!(req.planned_time, Some(1_500));
            assert_eq!(req.actual_time, Some(61));
        }
        _ => panic!("next key must dispatch a request"),
    }
    let mut anon = App::new();
    anon.handle_response(workout_response(1_000, 0, None), 0);
    anon.stop_timer(500);
    match anon.handle_key(Key::Char('n'), true, 600, &user, &fallback) {
        Command::Send(req) => {
            assert_eq!(req.user_id, "fallback-user");
            assert_eq!(req.actual_time, Some(0));
        }
        _ => panic!("next key must dispatch a request"),
    }
}

#[test]
fn keys_outside_their_phase_or_not_pressed_do_nothing() {
    let (user, fallback) = ids();
    let mut app = App::new();
    assert!(matches!(app.handle_key(Key::Char('f'), true, 0, &user, &fallback), Command::Nothing));
    assert!(matches!(app.handle_key(Key::Char('n'), true, 0, &user, &fallback), Command::Nothing));
    assert!(matches!(app.handle_key(Key::Char('s'), false, 0, &user, &fallback), Command::Nothing));
    assert!(matches!(app.handle_key(Key::Other, true, 0, &user, &fallback), Command::Nothing));
    assert_eq!(app.phase, Phase::Initial);
    assert!(!app.loading);
    let mut run = running(1_000, 0, 0);
    assert!(matches!(run.handle_key(Key::Char('s'), true, 0, &user, &fallback), Command::Nothing));
    assert_eq!(run.phase, Phase::Running);
}

#[test]
fn quit_keys_quit_in_any_phase() {
    let (user, fallback) = ids();
    let mut app = App::new();
    assert!(matches!(app.handle_key(Key::Char('q'), true, 0, &user, &fallback), Command::Quit));
    assert!(matches!(app.handle_key(Key::Esc, true, 0, &user, &fallback), Command::Quit));
    let mut run = running(1_000, 0, 0);
    assert!(matches!(run.handle_key(Key::CtrlC, true, 0, &user, &fallback), Command::Quit));
    assert!(matches!(run.handle_key(Key::Esc, false, 0, &user, &fallback), Command::Nothing));
}

#[test]
fn http_error_keeps_phase_and_ends_loading() {
    let (user, fallback) = ids();
    let mut app = App::new();
    let _ = app.handle_key(Key::Char('s'), true, 0, &user, &fallback);
    assert!(app.loading);
    let outcome = response_outcome(500, "server error", Ok(ApiResponse::empty()));
    match &outcome {
        ApiResult::Error(m) => {
            assert!(m.contains("500"));
            assert!(m.contains("server error"));
            assert_eq!(m, "HTTP 500: server error");
        }
        ApiResult::Success(_) => panic!("a 500 status is an error"),
    }
    app.apply_result(outcome, 10);
    assert!(!app.loading);
    assert_eq!(app.phase, Phase::Initial);
    assert_eq!(app.error.as_deref(), Some("HTTP 500: server error"));
}

#[test]
fn decode_failure_names_cause_and_body() {
    match response_outcome(200, "{oops", Err("expected value".to_string())) {
        ApiResult::Error(m) => assert_eq!(m, "expected value -- response: {oops"),
        ApiResult::Success(_) => panic!("a decode failure is an error"),
    }
    match response_outcome(204, "", Ok(workout_response(5, 1, None))) {
        ApiResult::Success(r) => assert_eq!(r.workout.unwrap().planned_time, Some(5)),
        ApiResult::Error(_) => panic!("a 2xx decoded body is a success"),
    }
    assert!(matches!(response_outcome(199, "x", Ok(ApiResponse::empty())), ApiResult::Error(_)));
    assert!(matches!(response_outcome(300, "x", Ok(ApiResponse::empty())), ApiResult::Error(_)));
}

#[test]
fn success_clears_error_and_applies_sections_independently() {
    let mut app = running(9_000, 1, 0);
    app.apply_result(ApiResult::Error("boom".to_string()), 1);
    assert_eq!(app.error.as_deref(), Some("boom"));
    let mut r = ApiResponse::empty();
    r.stats = Some(Stats { total_runs: Some(5), work_count: Some(120_500), pause_count: None });
    app.apply_result(ApiResult::Success(r), 2);
    assert!(app.error.is_none());
    assert_eq!(app.total_runs, 5);
    assert_eq!(app.stat_work_ms, 120_500);
    assert_eq!(app.stat_pause_ms, 0);
    assert_eq!(app.phase, Phase::Running);
    assert_eq!(app.planned_time_ms, 9_000);
    assert_eq!(app.status_text(), "Break");
    assert_eq!(app.status_color(), StatusColor::Green);
}

#[test]
fn notification_text_follows_interval_kind() {
    assert_eq!(running(1, 0, 0).notification_text(), "Work phase complete!");
    assert_eq!(running(1, 1, 0).notification_text(), "Break is over!");
    assert_eq!(running(1, 7, 0).notification_text(), "Timer complete!");
    assert_eq!(running(1, 7, 0).status_text(), "-");
    assert_eq!(running(1, 7, 0).status_color(), StatusColor::White);
}

#[test]
fn durations_render_as_hours_minutes_seconds() {
    assert_eq!(fmt_dur(0), "0h 0m 0s");
    assert_eq!(fmt_dur(999), "0h 0m 0s");
    assert_eq!(fmt_dur(1_500_000), "0h 25m 0s");
    assert_eq!(fmt_dur(3_723_999), "1h 2m 3s");
    assert_eq!(fmt_dur(360_000_000), "100h 0m 0s");
}
