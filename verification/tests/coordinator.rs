use stackctl::devloop::{loop_init, loop_step, LoopAction, LoopEvent, LoopPhase, LoopState};
use stackctl::filter::is_relevant_path;
use stackctl::pipeline::{attempt_output, build_step, plan_one_shot, BuildPhase, Mode, OutputSink};
use stackctl::supervisor::is_ready;
use stackctl::watcher::{classify_change, watch_step, WatchAction, WatchEvent, WatcherState};

const INTERVAL: u64 = 100;

fn emitted(a: WatchAction) -> Option<u64> {
    match a {
        WatchAction::Emit { trigger } => Some(trigger),
        _ => None,
    }
}

#[test]
fn debounce_burst_emits_one_trigger() {
    // Five relevant changes inside one idle window, then the timer fires:
    // exactly one trigger comes out, stamped at the timer.
    let mut s = WatcherState::Idle;
    let mut triggers: Vec<u64> = Vec::new();

    let (s1, a1) = watch_step(s, WatchEvent::Change { time: 0, relevant: true }, INTERVAL);
    assert_eq!(a1, WatchAction::StartTimer { deadline: 100 });
    s = s1;

    for t in [10u64, 20, 40, 80] {
        let (s2, a2) = watch_step(s, WatchEvent::Change { time: t, relevant: true }, INTERVAL);
        assert_eq!(a2, WatchAction::Nothing);
        assert_eq!(s2, WatcherState::Draining { deadline: 100 });
        s = s2;
    }

    let (s3, a3) = watch_step(s, WatchEvent::Timeout { time: 100 }, INTERVAL);
    if let Some(t) = emitted(a3) {
        triggers.push(t);
    }
    assert_eq!(s3, WatcherState::Idle);
    assert_eq!(triggers, vec![100]);
}

#[test]
fn debounce_spaced_changes_emit_one_each() {
    // Three changes each far enough apart that the timer fires in between:
    // three triggers.
    let mut s = WatcherState::Idle;
    let mut triggers: Vec<u64> = Vec::new();
    for t in [0u64, 500, 1000] {
        let (s1, a1) = watch_step(s, WatchEvent::Change { time: t, relevant: true }, INTERVAL);
        assert_eq!(a1, WatchAction::StartTimer { deadline: t + INTERVAL });
        let (s2, a2) = watch_step(s1, WatchEvent::Timeout { time: t + INTERVAL }, INTERVAL);
        if let Some(tr) = emitted(a2) {
            triggers.push(tr);
        }
        s = s2;
    }
    assert_eq!(triggers, vec![100, 600, 1100]);
}

#[test]
fn debounce_window_is_not_extended_by_late_events() {
    // A change just before the deadline drains without moving the deadline.
    let (s, _) = watch_step(
        WatcherState::Idle,
        WatchEvent::Change { time: 0, relevant: true },
        INTERVAL,
    );
    let (s, a) = watch_step(s, WatchEvent::Change { time: 99, relevant: true }, INTERVAL);
    assert_eq!(a, WatchAction::Nothing);
    assert_eq!(s, WatcherState::Draining { deadline: 100 });
}

#[test]
fn irrelevant_paths_never_trigger() {
    // Build output, tooling data, and paths without a source segment are all
    // ignored, even alone.
    for p in [
        b"proj/target/debug/app".as_slice(),
        b"proj/.stackable/frontend/log-stdout-x".as_slice(),
        b"proj/readme.md".as_slice(),
        b"proj/target/x/src/lib.rs".as_slice(),
    ] {
        let ev = classify_change(5, p);
        assert_eq!(ev, WatchEvent::Change { time: 5, relevant: false });
        let (s, a) = watch_step(WatcherState::Idle, ev, INTERVAL);
        assert_eq!(s, WatcherState::Idle);
        assert_eq!(a, WatchAction::Nothing);
    }
}

#[test]
fn source_paths_are_relevant() {
    assert!(is_relevant_path(b"proj/src/main.rs"));
    assert!(is_relevant_path(b"src/"));
    assert!(is_relevant_path(b"a/b/src/deep/mod.rs"));
    assert!(!is_relevant_path(b""));
    assert!(!is_relevant_path(b"target/"));
    assert!(!is_relevant_path(b"proj/source/main.rs"));
}

#[test]
fn stray_timer_in_idle_does_nothing() {
    let (s, a) = watch_step(WatcherState::Idle, WatchEvent::Timeout { time: 7 }, INTERVAL);
    assert_eq!(s, WatcherState::Idle);
    assert_eq!(a, WatchAction::Nothing);
}

#[test]
fn release_build_failure_is_final() {
    // A failed release build never escalates to a verbose retry.
    assert_eq!(
        build_step(Mode::BuildRelease, BuildPhase::QuietRunning, false),
        BuildPhase::Failed
    );
}

#[test]
fn serve_build_failure_retries_exactly_once() {
    // A failed quiet attempt escalates once; a successful retry is overall
    // success; a failed retry is final.
    let escalated = build_step(Mode::Serve, BuildPhase::QuietRunning, false);
    assert_eq!(escalated, BuildPhase::VerboseRunning);
    assert_eq!(build_step(Mode::Serve, escalated, true), BuildPhase::Succeeded);
    assert_eq!(build_step(Mode::Serve, escalated, false), BuildPhase::Failed);
}

#[test]
fn success_on_either_attempt_is_success() {
    assert_eq!(
        build_step(Mode::Serve, BuildPhase::QuietRunning, true),
        BuildPhase::Succeeded
    );
    assert_eq!(
        build_step(Mode::BuildRelease, BuildPhase::QuietRunning, true),
        BuildPhase::Succeeded
    );
    assert_eq!(
        build_step(Mode::Serve, BuildPhase::VerboseRunning, true),
        BuildPhase::Succeeded
    );
}

#[test]
fn only_serve_quiet_attempt_is_captured() {
    assert_eq!(
        attempt_output(Mode::Serve, BuildPhase::QuietRunning),
        OutputSink::CapturedToLogs
    );
    assert_eq!(attempt_output(Mode::Serve, BuildPhase::VerboseRunning), OutputSink::Console);
    assert_eq!(attempt_output(Mode::BuildRelease, BuildPhase::QuietRunning), OutputSink::Console);
    assert_eq!(
        attempt_output(Mode::BuildRelease, BuildPhase::VerboseRunning),
        OutputSink::Console
    );
}

#[test]
fn one_shot_non_release_is_rejected() {
    // A non-release one-shot build always fails with a descriptive error and
    // plans no build step.
    let r = plan_one_shot(false);
    let e = r.expect_err("non-release one-shot build must be rejected");
    assert_eq!(
        e.message(),
        "building distributable in debug mode is not yet supported!"
    );
}

#[test]
fn one_shot_release_is_accepted() {
    assert_eq!(plan_one_shot(true), Ok(Mode::BuildRelease));
}

fn track(state: &mut LoopState, live_servers: &mut u32, ev: LoopEvent, now: u64) -> LoopAction {
    // Mirror what a driver does with the actions, counting live server
    // processes, and check the single-server invariant as we go.
    let (next, action) = loop_step(*state, ev, now);
    if let LoopEvent::KillOutcome { ok: true } = ev {
        // The driver killed the server before reporting the outcome.
        *live_servers -= 1;
    }
    match action {
        LoopAction::AnnounceServer { .. } => *live_servers += 1,
        LoopAction::KillServer => {}
        LoopAction::StartServe => {
            assert_eq!(*live_servers, 0, "a serve may only start with no live server");
        }
        LoopAction::ExitOk { kill_server } => {
            if kill_server {
                *live_servers -= 1;
            }
        }
        _ => {}
    }
    assert!(*live_servers <= 1, "two servers must never be live at once");
    *state = next;
    action
}

#[test]
fn serve_with_no_changes_builds_once_and_serves() {
    let mut live: u32 = 0;
    let mut s = loop_init(false, 0);
    assert_eq!(s.phase, LoopPhase::Building);

    let a = track(&mut s, &mut live, LoopEvent::ServeOutcome { ok: true }, 3);
    assert_eq!(a, LoopAction::AnnounceServer { open_browser: false });
    assert_eq!(s.phase, LoopPhase::Waiting);
    assert!(s.server_live);

    // A stale trigger (not newer than the build start) changes nothing.
    let a = track(&mut s, &mut live, LoopEvent::Trigger { time: 0 }, 4);
    assert_eq!(a, LoopAction::Nothing);
    assert_eq!(s.phase, LoopPhase::Waiting);
    assert_eq!(live, 1);
}

#[test]
fn one_change_causes_one_rebuild_cycle() {
    let mut live: u32 = 0;
    let mut s = loop_init(false, 0);
    let mut serves = 0u32;

    track(&mut s, &mut live, LoopEvent::ServeOutcome { ok: true }, 3);

    // One fresh trigger: stop the server, then rebuild.
    let a = track(&mut s, &mut live, LoopEvent::Trigger { time: 10 }, 11);
    assert_eq!(a, LoopAction::KillServer);
    assert_eq!(s.phase, LoopPhase::Stopping);

    let a = track(&mut s, &mut live, LoopEvent::KillOutcome { ok: true }, 12);
    assert_eq!(a, LoopAction::StartServe);
    serves += 1;
    assert_eq!(s.phase, LoopPhase::Building);
    assert!(!s.server_live);
    assert_eq!(s.iter_start, 12);

    let a = track(&mut s, &mut live, LoopEvent::ServeOutcome { ok: true }, 15);
    assert_eq!(a, LoopAction::AnnounceServer { open_browser: false });
    assert_eq!(s.phase, LoopPhase::Waiting);
    assert_eq!(serves, 1);
    assert_eq!(live, 1);
}

#[test]
fn failed_build_keeps_watching() {
    let mut live: u32 = 0;
    let mut s = loop_init(false, 0);

    let a = track(&mut s, &mut live, LoopEvent::ServeOutcome { ok: false }, 2);
    assert_eq!(a, LoopAction::ReportBuildError);
    assert_eq!(s.phase, LoopPhase::Waiting);
    assert!(!s.server_live);

    // A later fix triggers a rebuild directly: no server to stop first.
    let a = track(&mut s, &mut live, LoopEvent::Trigger { time: 8 }, 9);
    assert_eq!(a, LoopAction::StartServe);
    assert_eq!(s.phase, LoopPhase::Building);
}

#[test]
fn kill_failure_is_fatal() {
    let mut s = loop_init(false, 0);
    let (s, _) = loop_step(s, LoopEvent::ServeOutcome { ok: true }, 1);
    let (s, _) = loop_step(s, LoopEvent::Trigger { time: 5 }, 6);
    let (s, a) = loop_step(s, LoopEvent::KillOutcome { ok: false }, 7);
    assert_eq!(a, LoopAction::ExitFatal);
    assert_eq!(s.phase, LoopPhase::Exited);
}

#[test]
fn stream_end_exits_cleanly_and_kills_the_server() {
    let mut s = loop_init(false, 0);
    let (s1, _) = loop_step(s, LoopEvent::ServeOutcome { ok: true }, 1);
    let (s2, a) = loop_step(s1, LoopEvent::StreamEnded, 9);
    assert_eq!(a, LoopAction::ExitOk { kill_server: true });
    assert_eq!(s2.phase, LoopPhase::Exited);
    assert!(!s2.server_live);

    // Without a live server nothing is killed on the way out.
    s = loop_init(false, 0);
    let (s1, _) = loop_step(s, LoopEvent::ServeOutcome { ok: false }, 1);
    let (_, a) = loop_step(s1, LoopEvent::StreamEnded, 9);
    assert_eq!(a, LoopAction::ExitOk { kill_server: false });
}

#[test]
fn browser_opens_only_on_first_successful_iteration() {
    let mut live: u32 = 0;
    let mut s = loop_init(true, 0);

    // First build fails: nothing to open yet.
    let a = track(&mut s, &mut live, LoopEvent::ServeOutcome { ok: false }, 1);
    assert_eq!(a, LoopAction::ReportBuildError);

    // The fix arrives; the first successful iteration opens the browser.
    track(&mut s, &mut live, LoopEvent::Trigger { time: 5 }, 6);
    let a = track(&mut s, &mut live, LoopEvent::ServeOutcome { ok: true }, 8);
    assert_eq!(a, LoopAction::AnnounceServer { open_browser: true });

    // Later iterations never open it again.
    track(&mut s, &mut live, LoopEvent::Trigger { time: 20 }, 21);
    track(&mut s, &mut live, LoopEvent::KillOutcome { ok: true }, 22);
    let a = track(&mut s, &mut live, LoopEvent::ServeOutcome { ok: true }, 25);
    assert_eq!(a, LoopAction::AnnounceServer { open_browser: false });
}

#[test]
fn readiness_is_a_success_status() {
    assert!(is_ready(Some(200)));
    assert!(is_ready(Some(204)));
    assert!(is_ready(Some(299)));
    assert!(!is_ready(Some(300)));
    assert!(!is_ready(Some(404)));
    assert!(!is_ready(Some(500)));
    assert!(!is_ready(None));
}
