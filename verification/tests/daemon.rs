use otrack::config::Config;
use otrack::daemon::{
    build_report, instant_from_parts, instant_ok, instant_parts, log_usage, seconds_between,
    AppUsage, DaemonState, Reply, WindowInfo,
};
use otrack::protocol::{DaemonRequest, DaemonResponse};

const T0: i128 = 1_700_000_000_000_000_000;
const MS: i128 = 1_000_000;

fn window(class: &str, title: &str) -> Option<WindowInfo> {
    Some(WindowInfo { class: class.to_string(), title: title.to_string() })
}

fn status(state: &mut DaemonState, now: i128) -> (Option<String>, Option<i128>, bool, Option<u64>) {
    match state.handle_request(DaemonRequest::GetStatus, now) {
        Reply::Respond(DaemonResponse::Status {
            active_app,
            session_start,
            is_focus_mode,
            focus_remaining_secs,
        }) => (active_app, session_start, is_focus_mode, focus_remaining_secs),
        _ => panic!("expected a status"),
    }
}

#[test]
fn whole_seconds_truncate_toward_zero() {
    assert_eq!(seconds_between(0, 1_999_999_999), 1);
    assert_eq!(seconds_between(0, 2_000_000_000), 2);
    assert_eq!(seconds_between(1_999_999_999, 0), -1);
    assert_eq!(seconds_between(0, -999_999_999), 0);
    assert_eq!(seconds_between(T0, T0 + 29_999_999_999), 29);
}

#[test]
fn new_state() {
    let s = DaemonState::new(Config::default_config(), T0);
    assert!(s.current_app.is_none());
    assert!(s.focus_end_time.is_none());
    assert!(!s.is_idle);
    assert_eq!(s.last_activity, T0);
}

#[test]
fn grace_period_of_log_usage() {
    let app = || AppUsage { app_class: "zed".to_string(), window_title: "x".to_string(), start_time: 5 };
    assert!(log_usage(app(), 29, 30).is_none());
    assert!(log_usage(app(), -5, 30).is_none());
    assert!(log_usage(app(), -5, 0).is_none());
    assert!(log_usage(app(), 45, 60).is_none());
    assert!(log_usage(app(), 0, 0).is_some());
    assert!(log_usage(app(), i64::MAX, u64::MAX).is_none());
    assert!(log_usage(app(), i64::MAX, i64::MAX as u64).is_some());
    let r = log_usage(app(), 30, 30).unwrap();
    assert_eq!((r.app_class.as_str(), r.window_title.as_str(), r.start_time, r.duration), ("zed", "x", 5, 30));
}

#[test]
fn window_change_logs_previous_session() {
    let mut s = DaemonState::new(Config::default_config(), T0);
    let first = s.on_window_changed(T0, window("zed", "main.rs"));
    assert!(first.logged.is_none());
    assert!(!first.close_window);
    let second = s.on_window_changed(T0 + 45_900 * MS, window("foot", "sh"));
    let r = second.logged.unwrap();
    assert_eq!(r.app_class, "zed");
    assert_eq!(r.window_title, "main.rs");
    assert_eq!(r.start_time, T0);
    assert_eq!(r.duration, 45);
    let (app, start, _, _) = status(&mut s, T0 + 50_000 * MS);
    assert_eq!(app.as_deref(), Some("foot"));
    assert_eq!(start, Some(T0 + 45_900 * MS));
}

#[test]
fn configured_grace_period_decides() {
    let mut config = Config::default_config();
    config.general.grace_period = 60;
    let mut s = DaemonState::new(config, T0);
    s.on_window_changed(T0, window("zed", "a"));
    assert!(s.on_window_changed(T0 + 45_000 * MS, window("foot", "b")).logged.is_none());
    let r = s.on_window_changed(T0 + 105_000 * MS, window("zed", "a")).logged.unwrap();
    assert_eq!((r.app_class.as_str(), r.duration), ("foot", 60));

    let mut config = Config::default_config();
    config.general.grace_period = 0;
    let mut t = DaemonState::new(config, T0);
    t.on_window_changed(T0, window("zed", "a"));
    assert_eq!(t.on_shutdown(T0 + 500 * MS).unwrap().duration, 0);
}

#[test]
fn sub_second_precision_is_kept() {
    let mut s = DaemonState::new(Config::default_config(), T0);
    // a session of 29.9999 s that starts 0.9995 s into a second
    s.on_window_changed(T0 + 999_500_000, window("zed", "a"));
    assert!(s.on_window_changed(T0 + 999_500_000 + 29_999_900_000, None).logged.is_none());
}

#[test]
fn instants_split_into_seconds_and_nanoseconds() {
    assert_eq!(instant_from_parts(1_700_000_000, 5), 1_700_000_000_000_000_005);
    assert_eq!(instant_from_parts(-1, 999_999_999), -1);
    assert_eq!(instant_parts(1_700_000_000_000_000_005), (1_700_000_000, 5));
    assert_eq!(instant_parts(-1), (-1, 999_999_999));
    assert_eq!(instant_parts(-1_000_000_000), (-1, 0));
    assert_eq!(instant_parts(0), (0, 0));
    assert!(instant_ok(T0));
    assert!(!instant_ok(i128::MAX));
}

#[test]
fn short_session_is_not_logged() {
    let mut s = DaemonState::new(Config::default_config(), T0);
    s.on_window_changed(T0, window("zed", "a"));
    let change = s.on_window_changed(T0 + 29_999 * MS, window("foot", "b"));
    assert!(change.logged.is_none());
}

#[test]
fn focus_to_no_window_ends_session() {
    let mut s = DaemonState::new(Config::default_config(), T0);
    s.on_window_changed(T0, window("zed", "a"));
    let change = s.on_window_changed(T0 + 60_000 * MS, None);
    assert_eq!(change.logged.unwrap().duration, 60);
    assert!(s.current_app.is_none());
    assert_eq!(s.last_activity, T0 + 60_000 * MS);
}

#[test]
fn blacklisted_window_closed_during_focus() {
    let mut s = DaemonState::new(Config::default_config(), T0);
    match s.handle_request(DaemonRequest::StartFocus { duration_mins: 10 }, T0) {
        Reply::Respond(DaemonResponse::Acknowledged) => {},
        _ => panic!("expected an acknowledgement"),
    }
    assert_eq!(s.focus_end_time, Some(T0 + 600_000 * MS));
    assert!(s.on_window_changed(T0 + 1_000 * MS, window("discord", "chat")).close_window);
    assert!(!s.on_window_changed(T0 + 2_000 * MS, window("zed", "code")).close_window);
    // after the focus session's end, nothing is closed
    assert!(!s.on_window_changed(T0 + 600_000 * MS, window("discord", "chat")).close_window);
    // the blocked window still counts as the active one
    assert_eq!(s.current_app.as_ref().unwrap().app_class, "discord");
}

#[test]
fn no_blocking_when_disabled_or_stopped() {
    let mut config = Config::default_config();
    config.blacklist.block_during_focus = false;
    let mut s = DaemonState::new(config, T0);
    s.handle_request(DaemonRequest::StartFocus { duration_mins: 10 }, T0);
    assert!(!s.on_window_changed(T0 + 1_000 * MS, window("discord", "chat")).close_window);

    let mut t = DaemonState::new(Config::default_config(), T0);
    t.handle_request(DaemonRequest::StartFocus { duration_mins: 10 }, T0);
    t.handle_request(DaemonRequest::StopFocus, T0 + 1 * MS);
    assert!(!t.on_window_changed(T0 + 1_000 * MS, window("discord", "chat")).close_window);
}

#[test]
fn focus_status() {
    let mut s = DaemonState::new(Config::default_config(), T0);
    assert_eq!(status(&mut s, T0), (None, None, false, None));
    s.handle_request(DaemonRequest::StartFocus { duration_mins: 25 }, T0);
    assert_eq!(status(&mut s, T0), (None, None, true, Some(1500)));
    assert_eq!(status(&mut s, T0 + 100_500 * MS), (None, None, true, Some(1399)));
    // once over, focus mode stays on with nothing left
    assert_eq!(status(&mut s, T0 + 2_000_000 * MS), (None, None, true, Some(0)));
    s.handle_request(DaemonRequest::StopFocus, T0 + 2_000_000 * MS);
    assert_eq!(status(&mut s, T0 + 2_000_000 * MS), (None, None, false, None));
}

#[test]
fn start_focus_of_zero_minutes() {
    let mut s = DaemonState::new(Config::default_config(), T0);
    s.handle_request(DaemonRequest::StartFocus { duration_mins: 0 }, T0);
    assert_eq!(status(&mut s, T0), (None, None, true, Some(0)));
}

#[test]
fn start_focus_longest() {
    let mut s = DaemonState::new(Config::default_config(), T0);
    s.handle_request(DaemonRequest::StartFocus { duration_mins: u32::MAX }, T0);
    assert_eq!(s.focus_end_time, Some(T0 + (u32::MAX as i128) * 60_000_000_000));
    assert_eq!(status(&mut s, T0).3, Some(u32::MAX as u64 * 60));
}

#[test]
fn report_request_needs_the_log() {
    let mut s = DaemonState::new(Config::default_config(), T0);
    assert!(matches!(s.handle_request(DaemonRequest::GetReport, T0), Reply::ReportNeeded));
}

#[test]
fn idle_check_ends_session_once() {
    let mut s = DaemonState::new(Config::default_config(), T0);
    s.on_window_changed(T0, window("zed", "a"));
    // 300 s is not more than the timeout
    assert!(s.on_idle_check(T0 + 300_999 * MS).is_none());
    assert!(!s.is_idle);
    let r = s.on_idle_check(T0 + 301_000 * MS).unwrap();
    assert_eq!(r.duration, 301);
    assert!(s.is_idle);
    assert!(s.current_app.is_none());
    assert!(s.on_idle_check(T0 + 900_000 * MS).is_none());
    assert!(s.on_shutdown(T0 + 900_000 * MS).is_none());
    // a window event wakes the tracker
    s.on_window_changed(T0 + 901_000 * MS, window("foot", "b"));
    assert!(!s.is_idle);
}

#[test]
fn idle_without_session_logs_nothing() {
    let mut s = DaemonState::new(Config::default_config(), T0);
    assert!(s.on_idle_check(T0 + 400_000 * MS).is_none());
    assert!(s.is_idle);
}

#[test]
fn shutdown_logs_current_session() {
    let mut s = DaemonState::new(Config::default_config(), T0);
    s.on_window_changed(T0, window("zed", "a"));
    let r = s.on_shutdown(T0 + 120_000 * MS).unwrap();
    assert_eq!((r.app_class.as_str(), r.duration), ("zed", 120));
    assert!(s.current_app.is_none());
    assert!(s.on_shutdown(T0 + 130_000 * MS).is_none());
}

#[test]
fn report_keeps_readable_rows_in_order() {
    let rows = vec![
        Some(("zed".to_string(), 7200i64)),
        None,
        Some(("foot".to_string(), 60i64)),
        Some(("odd".to_string(), -1i64)),
    ];
    match build_report(rows, Some(7260)) {
        DaemonResponse::Report { top_apps, today_total } => {
            assert_eq!(top_apps, vec![
                ("zed".to_string(), 7200u64),
                ("foot".to_string(), 60u64),
                ("odd".to_string(), u64::MAX),
            ]);
            assert_eq!(today_total, 7260);
        },
        _ => panic!("expected a report"),
    }
}

#[test]
fn report_failed_total_counts_as_zero() {
    match build_report(Vec::new(), None) {
        DaemonResponse::Report { top_apps, today_total } => {
            assert!(top_apps.is_empty());
            assert_eq!(today_total, 0);
        },
        _ => panic!("expected a report"),
    }
}
