use vstd::prelude::*;

use crate::config::{names_contain, Config};
use crate::protocol::{DaemonRequest, DaemonResponse};

verus! {

/// How often the daemon checks for idleness, in seconds.
pub const IDLE_CHECK_INTERVAL_SECS: u64 = 10;

/// Bound on the instants (Unix nanoseconds) that the daemon is handed:
/// beyond any date that `chrono` can represent, and small enough that the
/// whole seconds between two instants fit in an `i64`.
pub open spec fn time_limit() -> int {
    0x400_0000_0000_0000_0000_0000
}

/// An instant that the daemon can compute with.
pub open spec fn time_ok(t: i128) -> bool {
    -time_limit() <= t <= time_limit()
}

/// Whether `t` is an instant that the daemon can compute with.
pub fn instant_ok(t: i128) -> (ok: bool)
    ensures
        ok == time_ok(t),
{
    -0x400_0000_0000_0000_0000_0000 <= t && t <= 0x400_0000_0000_0000_0000_0000
}

/// The instant `secs` seconds and `nanos` nanoseconds after the Unix epoch.
pub fn instant_from_parts(secs: i64, nanos: u32) -> (t: i128)
    ensures
        t == secs * 1_000_000_000 + nanos,
{
    (secs as i128) * 1_000_000_000 + (nanos as i128)
}

/// The instant `t` as whole seconds since the Unix epoch (rounded down) and
/// the nanoseconds past them.
pub fn instant_parts(t: i128) -> (parts: (i64, u32))
    requires
        time_ok(t),
    ensures
        parts.0 * 1_000_000_000 + parts.1 == t,
        parts.1 < 1_000_000_000,
{
    let q: i128 = if t >= 0 {
        t / 1_000_000_000
    } else {
        -((-t - 1) / 1_000_000_000) - 1
    };
    assert(q * 1_000_000_000 <= t < q * 1_000_000_000 + 1_000_000_000) by (nonlinear_arith)
        requires
            t >= 0 ==> q == t / 1_000_000_000,
            t < 0 ==> q == -((-t - 1) / 1_000_000_000) - 1,
    ;
    assert(-0x4_0000_0000_0000_0000 <= q <= 0x4_0000_0000_0000_0000) by (nonlinear_arith)
        requires
            q * 1_000_000_000 <= t < q * 1_000_000_000 + 1_000_000_000,
            -0x400_0000_0000_0000_0000_0000 <= t <= 0x400_0000_0000_0000_0000_0000,
    ;
    let r: i128 = t - q * 1_000_000_000;
    (q as i64, r as u32)
}

/// A focus session's end: an instant plus at most `u32::MAX` minutes.
pub open spec fn focus_end_ok(t: i128) -> bool {
    -time_limit() <= t <= time_limit() + 0x40_0000_0000_0000_0000
}

/// The whole seconds from `from` to `to` (both in nanoseconds), truncated
/// toward zero: negative when `to` comes first.
pub open spec fn whole_seconds(from: i128, to: i128) -> int {
    let d = to - from;
    if d >= 0 {
        d / 1_000_000_000
    } else {
        -((-d) / 1_000_000_000)
    }
}

/// The whole seconds from `from` to `to`, as `whole_seconds` says.
pub fn seconds_between(from: i128, to: i128) -> (secs: i64)
    requires
        -0x1000_0000_0000_0000_0000_0000 <= to - from <= 0x1000_0000_0000_0000_0000_0000,
    ensures
        secs == whole_seconds(from, to),
{
    let d = to - from;
    if d >= 0 {
        (d / 1_000_000_000) as i64
    } else {
        let neg = -d;
        -((neg / 1_000_000_000) as i64)
    }
}

/// The window that has the focus, and since when (Unix nanoseconds).
pub struct AppUsage {
    pub app_class: String,
    pub window_title: String,
    pub start_time: i128,
}

/// A window session to be written to the usage log.
pub struct UsageRecord {
    pub app_class: String,
    pub window_title: String,
    pub start_time: i128,
    /// Whole seconds.
    pub duration: i64,
}

/// The window that the compositor reports as newly focused.
pub struct WindowInfo {
    pub class: String,
    pub title: String,
}

/// What the daemon does after the focused window changed.
pub struct WindowChange {
    /// The session of the previous window, if it is to be logged.
    pub logged: Option<UsageRecord>,
    /// Whether the new window is to be closed (blacklisted during focus).
    pub close_window: bool,
}

/// How the daemon answers a request: directly, or, for a report, after the
/// caller has read today's totals from the usage log (see `build_report`).
pub enum Reply {
    Respond(DaemonResponse),
    ReportNeeded,
}

/// The daemon's state, apart from its database connection.
pub struct DaemonState {
    pub config: Config,
    pub current_app: Option<AppUsage>,
    pub focus_end_time: Option<i128>,
    pub is_idle: bool,
    pub last_activity: i128,
}

/// What logging a finished session of `duration` seconds writes, with a
/// grace period of `grace_period` seconds: nothing for a session shorter than
/// the grace period, else the session with its duration.
pub open spec fn usage_record(app: AppUsage, duration: i64, grace_period: u64) -> Option<UsageRecord> {
    if duration < grace_period {
        None
    } else {
        Some(
            UsageRecord {
                app_class: app.app_class,
                window_title: app.window_title,
                start_time: app.start_time,
                duration,
            },
        )
    }
}

/// What ending the session of `app` at `now` writes to the log.
pub open spec fn session_record(app: AppUsage, now: i128, grace_period: u64) -> Option<UsageRecord> {
    usage_record(app, whole_seconds(app.start_time, now) as i64, grace_period)
}

/// What ending the current session, if there is one, writes to the log.
pub open spec fn current_record(current: Option<AppUsage>, now: i128, grace_period: u64) -> Option<UsageRecord> {
    match current {
        Some(app) => session_record(app, now, grace_period),
        None => None,
    }
}

/// Decides whether a finished session is logged: only sessions of at least
/// the grace period (`grace_period` seconds) are.
pub fn log_usage(app: AppUsage, duration: i64, grace_period: u64) -> (record: Option<UsageRecord>)
    ensures
        record == usage_record(app, duration, grace_period),
{
    if duration < 0 || (duration as u64) < grace_period {
        return None;
    }
    Some(
        UsageRecord {
            app_class: app.app_class,
            window_title: app.window_title,
            start_time: app.start_time,
            duration,
        },
    )
}

/// The rows of a report that could be read, in their order, with each
/// total taken as a `u64`.
pub open spec fn present_rows(rows: Seq<Option<(String, i64)>>) -> Seq<(String, u64)>
    decreases rows.len(),
{
    if rows.len() == 0 {
        Seq::empty()
    } else {
        let rest = present_rows(rows.drop_last());
        match rows.last() {
            Some((app, total)) => rest.push((app, total as u64)),
            None => rest,
        }
    }
}

/// The report answer, from the per-application totals of today that the
/// usage log gave (`None` for a row that could not be read) and the total
/// of today (`None` where the query failed, which counts as 0).
pub fn build_report(rows: Vec<Option<(String, i64)>>, total: Option<i64>) -> (response: DaemonResponse)
    ensures
        response matches DaemonResponse::Report { top_apps, today_total } && top_apps@
            == present_rows(rows@) && today_total == (match total {
            Some(t) => t,
            None => 0,
        }) as u64,
{
    let mut top_apps: Vec<(String, u64)> = Vec::new();
    let mut i: usize = 0;
    while i < rows.len()
        invariant
            i <= rows.len(),
            top_apps@ == present_rows(rows@.take(i as int)),
        decreases rows.len() - i,
    {
        assert(rows@.take(i + 1).drop_last() =~= rows@.take(i as int));
        match &rows[i] {
            Some((app, secs)) => {
                top_apps.push((app.clone(), *secs as u64));
            },
            None => {},
        }
        i = i + 1;
    }
    assert(rows@.take(rows.len() as int) =~= rows@);
    let today_total = match total {
        Some(t) => t as u64,
        None => 0,
    };
    DaemonResponse::Report { top_apps, today_total }
}

impl DaemonState {
    /// The invariant of the state: its instants are ones it can compute with.
    pub open spec fn wf(&self) -> bool {
        &&& time_ok(self.last_activity)
        &&& (self.current_app matches Some(app) ==> time_ok(app.start_time))
        &&& (self.focus_end_time matches Some(end) ==> focus_end_ok(end))
    }

    /// Whether a window of class `class` that gets the focus at `now` is
    /// closed: a focus session runs until after `now`, the class is
    /// blacklisted, and blocking is on.
    pub open spec fn blocks(self, now: i128, class: Seq<char>) -> bool {
        &&& self.focus_end_time matches Some(end)
        &&& now < end
        &&& names_contain(self.config.blacklist.apps@, class)
        &&& self.config.blacklist.block_during_focus
    }

    /// The state and action after the focus moved to `window` (or to no
    /// window) at `now`.
    pub open spec fn window_step(self, now: i128, window: Option<WindowInfo>) -> (DaemonState, WindowChange) {
        let logged = current_record(self.current_app, now, self.config.general.grace_period);
        let (current, close) = match window {
            Some(w) => (
                Some(AppUsage { app_class: w.class, window_title: w.title, start_time: now }),
                self.blocks(now, w.class@),
            ),
            None => (None, false),
        };
        (
            DaemonState { current_app: current, is_idle: false, last_activity: now, ..self },
            WindowChange { logged, close_window: close },
        )
    }

    /// Whether the periodic idle check at `now` finds the user newly idle:
    /// more than `idle_timeout` whole seconds since the last activity, and
    /// not idle already.
    pub open spec fn goes_idle(self, now: i128) -> bool {
        &&& whole_seconds(self.last_activity, now) > (self.config.general.idle_timeout as i64)
        &&& !self.is_idle
    }

    /// The state and log record after the periodic idle check at `now`.
    pub open spec fn idle_step(self, now: i128) -> (DaemonState, Option<UsageRecord>) {
        if self.goes_idle(now) {
            (
                DaemonState { is_idle: true, current_app: None, ..self },
                current_record(self.current_app, now, self.config.general.grace_period),
            )
        } else {
            (self, None)
        }
    }

    /// The state and log record when the daemon stops at `now`.
    pub open spec fn shutdown_step(self, now: i128) -> (DaemonState, Option<UsageRecord>) {
        (DaemonState { current_app: None, ..self }, current_record(self.current_app, now, self.config.general.grace_period))
    }

    /// The answer to a status request at `now`.
    pub open spec fn status_at(self, now: i128) -> DaemonResponse {
        DaemonResponse::Status {
            active_app: match self.current_app {
                Some(app) => Some(app.app_class),
                None => None,
            },
            session_start: match self.current_app {
                Some(app) => Some(app.start_time),
                None => None,
            },
            is_focus_mode: self.focus_end_time is Some,
            focus_remaining_secs: match self.focus_end_time {
                Some(end) => Some(
                    if end > now {
                        whole_seconds(now, end) as u64
                    } else {
                        0
                    },
                ),
                None => None,
            },
        }
    }

    /// The state and reply after `request` arrived at `now`.
    pub open spec fn request_step(self, request: DaemonRequest, now: i128) -> (DaemonState, Reply) {
        match request {
            DaemonRequest::GetStatus => (self, Reply::Respond(self.status_at(now))),
            DaemonRequest::StartFocus { duration_mins } => (
                DaemonState {
                    focus_end_time: Some((now + duration_mins * 60_000_000_000) as i128),
                    ..self
                },
                Reply::Respond(DaemonResponse::Acknowledged),
            ),
            DaemonRequest::StopFocus => (
                DaemonState { focus_end_time: None, ..self },
                Reply::Respond(DaemonResponse::Acknowledged),
            ),
            DaemonRequest::GetReport => (self, Reply::ReportNeeded),
        }
    }

    /// The state when the daemon starts at `now`.
    pub fn new(config: Config, now: i128) -> (state: DaemonState)
        requires
            time_ok(now),
        ensures
            state.wf(),
            state.config == config,
            state.current_app is None,
            state.focus_end_time is None,
            !state.is_idle,
            state.last_activity == now,
    {
        DaemonState {
            config,
            current_app: None,
            focus_end_time: None,
            is_idle: false,
            last_activity: now,
        }
    }

    /// Ends the current session at `now`, if there is one, and says what to log.
    fn end_current(&mut self, now: i128) -> (record: Option<UsageRecord>)
        requires
            old(self).wf(),
            time_ok(now),
        ensures
            *final(self) == (DaemonState { current_app: None, ..*old(self) }),
            record == current_record(old(self).current_app, now, old(self).config.general.grace_period),
    {
        match self.current_app.take() {
            Some(app) => {
                let duration = seconds_between(app.start_time, now);
                log_usage(app, duration, self.config.general.grace_period)
            },
            None => None,
        }
    }

    /// The focus moved to `window` (`None`: to no window) at `now`: the
    /// previous session ends and the new one starts.
    pub fn on_window_changed(&mut self, now: i128, window: Option<WindowInfo>) -> (change: WindowChange)
        requires
            old(self).wf(),
            time_ok(now),
        ensures
            final(self).wf(),
            (*final(self), change) == old(self).window_step(now, window),
    {
        let ghost before = *self;
        self.last_activity = now;
        self.is_idle = false;
        let logged = self.end_current(now);
        let mut close_window = false;
        match window {
            Some(w) => {
                if let Some(focus_end) = self.focus_end_time {
                    if now < focus_end && self.config.is_blacklisted(&w.class) {
                        if self.config.blacklist.block_during_focus {
                            close_window = true;
                        }
                    }
                }
                self.current_app = Some(
                    AppUsage { app_class: w.class, window_title: w.title, start_time: now },
                );
            },
            None => {},
        }
        let change = WindowChange { logged, close_window };
        assert((*self, change) == before.window_step(now, window));
        change
    }

    /// The periodic idle check at `now`: a user newly idle ends the session.
    pub fn on_idle_check(&mut self, now: i128) -> (record: Option<UsageRecord>)
        requires
            old(self).wf(),
            time_ok(now),
        ensures
            final(self).wf(),
            (*final(self), record) == old(self).idle_step(now),
    {
        let idle_for = seconds_between(self.last_activity, now);
        let threshold = self.config.general.idle_timeout as i64;
        if idle_for > threshold && !self.is_idle {
            self.is_idle = true;
            self.end_current(now)
        } else {
            None
        }
    }

    /// The daemon stops at `now`: the current session ends.
    pub fn on_shutdown(&mut self, now: i128) -> (record: Option<UsageRecord>)
        requires
            old(self).wf(),
            time_ok(now),
        ensures
            final(self).wf(),
            (*final(self), record) == old(self).shutdown_step(now),
    {
        self.end_current(now)
    }

    /// Answers a request that arrived at `now`.
    pub fn handle_request(&mut self, request: DaemonRequest, now: i128) -> (reply: Reply)
        requires
            old(self).wf(),
            time_ok(now),
        ensures
            final(self).wf(),
            (*final(self), reply) == old(self).request_step(request, now),
    {
        match request {
            DaemonRequest::GetStatus => {
                let active_app = match &self.current_app {
                    Some(app) => Some(app.app_class.clone()),
                    None => None,
                };
                let session_start = match &self.current_app {
                    Some(app) => Some(app.start_time),
                    None => None,
                };
                let focus_remaining_secs = match self.focus_end_time {
                    Some(end) => {
                        if end > now {
                            Some(seconds_between(now, end) as u64)
                        } else {
                            Some(0)
                        }
                    },
                    None => None,
                };
                Reply::Respond(
                    DaemonResponse::Status {
                        active_app,
                        session_start,
                        is_focus_mode: self.focus_end_time.is_some(),
                        focus_remaining_secs,
                    },
                )
            },
            DaemonRequest::StartFocus { duration_mins } => {
                self.focus_end_time = Some(now + (duration_mins as i128) * 60_000_000_000);
                Reply::Respond(DaemonResponse::Acknowledged)
            },
            DaemonRequest::StopFocus => {
                self.focus_end_time = None;
                Reply::Respond(DaemonResponse::Acknowledged)
            },
            DaemonRequest::GetReport => Reply::ReportNeeded,
        }
    }
}

} // verus!

verus! {

/// A focus session started at `now` shows, in a status asked at the same
/// instant, as running with its whole length left.
pub proof fn law_start_focus_then_status(s: DaemonState, duration_mins: u32, now: i128)
    requires
        s.wf(),
        time_ok(now),
    ensures
        ({
            let started = s.request_step(DaemonRequest::StartFocus { duration_mins }, now).0;
            started.request_step(DaemonRequest::GetStatus, now).1 matches Reply::Respond(
                DaemonResponse::Status { is_focus_mode, focus_remaining_secs, .. },
            ) && is_focus_mode && focus_remaining_secs == Some((duration_mins * 60) as u64)
        }),
{
    let started = s.request_step(DaemonRequest::StartFocus { duration_mins }, now).0;
    let end = (now + duration_mins * 60_000_000_000) as i128;
    assert(started.focus_end_time == Some(end));
    if end > now {
        assert(whole_seconds(now, end) == duration_mins * 60) by (nonlinear_arith)
            requires
                end - now == duration_mins * 60_000_000_000,
                whole_seconds(now, end) == (end - now) / 1_000_000_000,
        ;
    }
}

/// After a focus session is stopped, a status shows no focus session.
pub proof fn law_stop_focus_then_status(s: DaemonState, now: i128, later: i128)
    requires
        s.wf(),
        time_ok(now),
        time_ok(later),
    ensures
        ({
            let stopped = s.request_step(DaemonRequest::StopFocus, now).0;
            stopped.request_step(DaemonRequest::GetStatus, later).1 matches Reply::Respond(
                DaemonResponse::Status { is_focus_mode, focus_remaining_secs, .. },
            ) && !is_focus_mode && focus_remaining_secs is None
        }),
{
}

/// Stopping a focus session undoes starting it: after a start and then a
/// stop, the state is the one before the start but without a focus session,
/// and a status shows the same as one asked of that state.
pub proof fn law_stop_undoes_start(s: DaemonState, duration_mins: u32, start: i128, stop: i128, later: i128)
    requires
        s.wf(),
        time_ok(start),
        time_ok(stop),
        time_ok(later),
    ensures
        ({
            let started = s.request_step(DaemonRequest::StartFocus { duration_mins }, start).0;
            let stopped = started.request_step(DaemonRequest::StopFocus, stop).0;
            &&& stopped == DaemonState { focus_end_time: None, ..s }
            &&& stopped.request_step(DaemonRequest::GetStatus, later).1 == DaemonState {
                focus_end_time: None,
                ..s
            }.request_step(DaemonRequest::GetStatus, later).1
            &&& stopped.request_step(DaemonRequest::GetStatus, later).1 matches Reply::Respond(
                DaemonResponse::Status { is_focus_mode, focus_remaining_secs, .. },
            ) && !is_focus_mode && focus_remaining_secs is None
        }),
{
}

/// A request changes at most the focus session's end, and only a start or a
/// stop of focus changes it: status and report requests leave the state as
/// it was.
pub proof fn law_requests_change_only_focus(s: DaemonState, request: DaemonRequest, now: i128)
    requires
        s.wf(),
        time_ok(now),
    ensures
        ({
            let after = s.request_step(request, now).0;
            &&& after == DaemonState { focus_end_time: after.focus_end_time, ..s }
            &&& (request is GetStatus || request is GetReport) ==> after == s
        }),
{
}

/// Status and report requests leave the state as it was.
pub proof fn law_queries_keep_state(s: DaemonState, now: i128)
    requires
        s.wf(),
        time_ok(now),
    ensures
        s.request_step(DaemonRequest::GetStatus, now).0 == s,
        s.request_step(DaemonRequest::GetReport, now).0 == s,
{
}

/// A newly focused window is what a status then shows as active, with its
/// session starting at the instant of the change.
pub proof fn law_window_then_status(s: DaemonState, window: WindowInfo, now: i128, later: i128)
    requires
        s.wf(),
        time_ok(now),
        time_ok(later),
    ensures
        ({
            let class = window.class;
            let moved = s.window_step(now, Some(window)).0;
            moved.request_step(DaemonRequest::GetStatus, later).1 matches Reply::Respond(
                DaemonResponse::Status { active_app, session_start, .. },
            ) && active_app == Some(class) && session_start == Some(now)
        }),
{
}

/// Only sessions of at least the grace period are logged, with the length
/// they were ended with.
pub proof fn law_logged_sessions_meet_grace(app: AppUsage, duration: i64, grace_period: u64)
    ensures
        usage_record(app, duration, grace_period) is Some <==> duration >= grace_period,
        usage_record(app, duration, grace_period) matches Some(record) ==> (record.duration
            == duration && record.app_class == app.app_class && record.start_time
            == app.start_time),
{
}

/// A window that keeps the focus for less than the configured grace period
/// leaves no record when the focus moves on; one that keeps it for the grace
/// period or longer is logged with its whole seconds.
pub proof fn law_window_session_logging(
    s: DaemonState,
    first: WindowInfo,
    start: i128,
    next: Option<WindowInfo>,
    end: i128,
)
    requires
        s.wf(),
        time_ok(start),
        time_ok(end),
        start <= end,
    ensures
        ({
            let grace = s.config.general.grace_period;
            let logged = s.window_step(start, Some(first)).0.window_step(end, next).1.logged;
            &&& (end - start) / 1_000_000_000 < grace ==> logged is None
            &&& (end - start) / 1_000_000_000 >= grace ==> (logged matches Some(record)
                && record.duration == (end - start) / 1_000_000_000 && record.start_time == start
                && record.app_class == first.class && record.window_title == first.title)
        }),
{
}

/// Once the user is found idle, later idle checks change nothing and log
/// nothing until a window event comes.
pub proof fn law_idle_check_once(s: DaemonState, now: i128, later: i128)
    requires
        s.wf(),
        time_ok(now),
        time_ok(later),
        s.goes_idle(now),
    ensures
        ({
            let idle = s.idle_step(now).0;
            &&& idle.is_idle
            &&& idle.current_app is None
            &&& idle.idle_step(later) == (idle, None::<UsageRecord>)
        }),
{
}

/// A session is logged at most once: after it was ended by the idle check,
/// stopping the daemon logs nothing more.
pub proof fn law_session_logged_once(s: DaemonState, now: i128, later: i128)
    requires
        s.wf(),
        time_ok(now),
        time_ok(later),
        s.goes_idle(now),
    ensures
        s.idle_step(now).0.shutdown_step(later).1 is None,
{
}

/// A window event ends idleness.
pub proof fn law_window_event_wakes(s: DaemonState, now: i128, window: Option<WindowInfo>)
    requires
        s.wf(),
        time_ok(now),
    ensures
        !s.window_step(now, window).0.is_idle,
        s.window_step(now, window).0.last_activity == now,
{
}

/// During a focus session with blocking on, a blacklisted window that gets
/// the focus is closed; outside a focus session no window is closed.
pub proof fn law_blacklisted_closed_during_focus(
    s: DaemonState,
    window: WindowInfo,
    mins: u32,
    start: i128,
    now: i128,
)
    requires
        s.wf(),
        time_ok(start),
        time_ok(now),
        mins > 0,
        start <= now < start + mins * 60_000_000_000,
        s.config.blacklist.block_during_focus,
        names_contain(s.config.blacklist.apps@, window.class@),
    ensures
        s.request_step(DaemonRequest::StartFocus { duration_mins: mins }, start).0.window_step(
            now,
            Some(window),
        ).1.close_window,
        !s.request_step(DaemonRequest::StopFocus, start).0.window_step(now, Some(window)).1.close_window,
{
}

/// The whole seconds from `from` to `to` nanoseconds, truncated toward zero,
/// written out for the laws below.
proof fn lemma_whole_seconds_nonneg(from: i128, to: i128)
    requires
        from <= to,
    ensures
        whole_seconds(from, to) == (to - from) / 1_000_000_000,
{
}

/// Stopping the daemon ends the current session, and logs it exactly when
/// its whole seconds reach the configured grace period, under the class and
/// title of the window that had the focus and with the instant it got it.
/// Without a session nothing is logged. Nothing else in the state changes.
pub proof fn law_shutdown_logging(s: DaemonState, now: i128)
    requires
        s.wf(),
        time_ok(now),
    ensures
        s.shutdown_step(now).0.current_app is None,
        s.shutdown_step(now).0.config == s.config,
        s.shutdown_step(now).0.focus_end_time == s.focus_end_time,
        s.shutdown_step(now).0.is_idle == s.is_idle,
        s.shutdown_step(now).0.last_activity == s.last_activity,
        s.current_app is None ==> s.shutdown_step(now).1 is None,
        s.current_app matches Some(app) ==> (app.start_time <= now ==> (s.shutdown_step(now).1 is Some
            <==> (now - app.start_time) / 1_000_000_000 >= s.config.general.grace_period)),
        s.current_app matches Some(app) ==> (app.start_time > now ==> (s.shutdown_step(now).1 is Some
            <==> (s.config.general.grace_period == 0 && app.start_time - now < 1_000_000_000))),
        s.current_app matches Some(app) ==> (s.shutdown_step(now).1 matches Some(record) ==> (
        record.app_class == app.app_class && record.window_title == app.window_title
            && record.start_time == app.start_time && (app.start_time <= now ==> record.duration
            == (now - app.start_time) / 1_000_000_000))),
{
    if let Some(app) = s.current_app {
        if app.start_time <= now {
            lemma_whole_seconds_nonneg(app.start_time, now);
        }
    }
}

/// When the idle check finds the user newly idle, the current session ends
/// and is logged exactly when its whole seconds reach the configured grace
/// period, under the class and title of the window that had the focus and
/// with the instant it got it. When the check does not find the user newly
/// idle, nothing changes and nothing is logged.
pub proof fn law_idle_logging(s: DaemonState, now: i128)
    requires
        s.wf(),
        time_ok(now),
    ensures
        !s.goes_idle(now) ==> s.idle_step(now) == (s, None::<UsageRecord>),
        s.goes_idle(now) ==> s.idle_step(now).0.is_idle && s.idle_step(now).0.current_app is None
            && s.idle_step(now).0.config == s.config && s.idle_step(now).0.focus_end_time
            == s.focus_end_time && s.idle_step(now).0.last_activity == s.last_activity,
        s.goes_idle(now) && s.current_app is None ==> s.idle_step(now).1 is None,
        s.goes_idle(now) ==> (s.current_app matches Some(app) ==> (app.start_time <= now ==> (
        s.idle_step(now).1 is Some <==> (now - app.start_time) / 1_000_000_000
            >= s.config.general.grace_period))),
        s.goes_idle(now) ==> (s.current_app matches Some(app) ==> (s.idle_step(now).1 matches Some(
            record,
        ) ==> (record.app_class == app.app_class && record.window_title == app.window_title
            && record.start_time == app.start_time && (app.start_time <= now ==> record.duration
            == (now - app.start_time) / 1_000_000_000)))),
{
    if let Some(app) = s.current_app {
        if app.start_time <= now {
            lemma_whole_seconds_nonneg(app.start_time, now);
        }
    }
}

/// The idle check finds the user newly idle exactly when more than
/// `idle_timeout` whole seconds passed since the last activity and the user
/// was not idle yet.
pub proof fn law_goes_idle(s: DaemonState, now: i128)
    requires
        s.wf(),
        time_ok(now),
        s.last_activity <= now,
        s.config.general.idle_timeout <= i64::MAX,
    ensures
        s.goes_idle(now) <==> ((now - s.last_activity) / 1_000_000_000
            > s.config.general.idle_timeout && !s.is_idle),
{
    lemma_whole_seconds_nonneg(s.last_activity, now);
}

/// A change of the focused window ends the current session, and logs it
/// exactly when its whole seconds reach the configured grace period, under
/// the class and title of the window that had the focus.
pub proof fn law_window_change_logging(s: DaemonState, now: i128, window: Option<WindowInfo>)
    requires
        s.wf(),
        time_ok(now),
    ensures
        s.current_app is None ==> s.window_step(now, window).1.logged is None,
        s.current_app matches Some(app) ==> (app.start_time <= now ==> (s.window_step(
            now,
            window,
        ).1.logged is Some <==> (now - app.start_time) / 1_000_000_000
            >= s.config.general.grace_period)),
        s.current_app matches Some(app) ==> (s.window_step(now, window).1.logged matches Some(
            record,
        ) ==> (record.app_class == app.app_class && record.window_title == app.window_title
            && record.start_time == app.start_time && (app.start_time <= now ==> record.duration
            == (now - app.start_time) / 1_000_000_000))),
{
    if let Some(app) = s.current_app {
        if app.start_time <= now {
            lemma_whole_seconds_nonneg(app.start_time, now);
        }
    }
}

/// Turns a row of the usage log into a report entry, `None` for a row that
/// could not be read.
pub open spec fn readable_entry(row: Option<(String, i64)>) -> Option<(String, u64)> {
    match row {
        Some((app, total)) => Some((app, total as u64)),
        None => None,
    }
}

/// A report keeps every readable row of the usage log, in the order the log
/// gave them, each with its total as a `u64`, and drops only the unreadable
/// ones.
pub proof fn law_report_keeps_readable_rows(rows: Seq<Option<(String, i64)>>)
    ensures
        present_rows(rows) == rows.filter_map(|row: Option<(String, i64)>| readable_entry(row)),
        present_rows(rows).len() <= rows.len(),
    decreases rows.len(),
{
    if rows.len() > 0 {
        law_report_keeps_readable_rows(rows.drop_last());
        let f = |row: Option<(String, i64)>| readable_entry(row);
        match rows.last() {
            Some((app, total)) => {
                assert(present_rows(rows.drop_last()).push((app, total as u64)) =~= rows.drop_last().filter_map(f) + seq![(app, total as u64)]);
            },
            None => {},
        }
    }
}

/// When every row of the usage log could be read, the report has one entry
/// per row: the row's application and total, at the row's place.
pub proof fn law_report_all_rows_readable(rows: Seq<Option<(String, i64)>>)
    requires
        forall|i: int| 0 <= i < rows.len() ==> #[trigger] rows[i] is Some,
    ensures
        present_rows(rows).len() == rows.len(),
        forall|i: int|
            0 <= i < rows.len() ==> #[trigger] present_rows(rows)[i] == (
                (rows[i]->0).0,
                (rows[i]->0).1 as u64,
            ),
    decreases rows.len(),
{
    if rows.len() > 0 {
        let init = rows.drop_last();
        assert forall|i: int| 0 <= i < init.len() implies #[trigger] init[i] is Some by {
            assert(init[i] == rows[i]);
        }
        law_report_all_rows_readable(init);
        assert(rows.last() == rows[rows.len() - 1]);
    }
}

} // verus!
