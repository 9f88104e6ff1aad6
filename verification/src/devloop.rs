//! The development loop: build, serve, wait for a trigger, stop, rebuild.
//!
//! The loop is a state machine driven by the outcomes the driver reports
//! back: the result of a build-and-serve attempt, debounced rebuild triggers,
//! the end of the trigger stream, and the result of killing the previous
//! server. The machine decides what happens next; the driver performs it.
//! Its central invariant: a new serve is only ever started once no server
//! handle is live, so two servers never run at the same time.

use vstd::prelude::*;

verus! {

/// Phase of the development loop.
#[derive(Clone, Copy, Debug, PartialEq, Eq, Structural)]
pub enum LoopPhase {
    /// A build-and-serve attempt is in flight.
    Building,
    /// Watching the trigger stream; a server may or may not be live.
    Waiting,
    /// A kill of the previous server is in flight.
    Stopping,
    /// The trigger stream ended, or a kill failed: the loop is over.
    Exited,
}

/// State of the development loop.
#[derive(Clone, Copy, Debug, PartialEq, Eq, Structural)]
pub struct LoopState {
    pub phase: LoopPhase,
    /// A server handle created by this loop is currently live.
    pub server_live: bool,
    /// Start time of the current iteration's build; a trigger is stale
    /// unless strictly newer.
    pub iter_start: u64,
    /// The caller asked for the browser to be opened once.
    pub open_requested: bool,
    /// The browser has already been opened by an earlier iteration.
    pub opened: bool,
}

/// What the driver reports into the loop.
#[derive(Clone, Copy, Debug, PartialEq, Eq, Structural)]
pub enum LoopEvent {
    /// The build-and-serve attempt finished; `ok` means a healthy server.
    ServeOutcome { ok: bool },
    /// The debounced watcher emitted a rebuild trigger stamped `time`.
    Trigger { time: u64 },
    /// The trigger stream ended: the watch infrastructure is gone.
    StreamEnded,
    /// The kill of the previous server finished.
    KillOutcome { ok: bool },
}

/// What the driver must do after a step.
#[derive(Clone, Copy, Debug, PartialEq, Eq, Structural)]
pub enum LoopAction {
    Nothing,
    /// Print the build summary and listen address; open the browser as well
    /// when `open_browser` is set.
    AnnounceServer { open_browser: bool },
    /// Print the build error; the loop keeps watching for a fix.
    ReportBuildError,
    /// Kill the live server, then report back with `KillOutcome`.
    KillServer,
    /// Begin a new iteration: run the build-and-serve attempt.
    StartServe,
    /// Leave the loop cleanly, killing the still-live server first when
    /// `kill_server` is set.
    ExitOk { kill_server: bool },
    /// A kill failed: abort the whole loop with an error.
    ExitFatal,
}

/// The loop state at startup: the first iteration's build is already in
/// flight, no server is live, the browser has not been opened.
pub open spec fn loop_init_spec(open_requested: bool, now: u64) -> LoopState {
    LoopState {
        phase: LoopPhase::Building,
        server_live: false,
        iter_start: now,
        open_requested,
        opened: false,
    }
}

/// Start the loop; `now` is the start time of the first iteration.
pub fn loop_init(open_requested: bool, now: u64) -> (s: LoopState)
    ensures
        s == loop_init_spec(open_requested, now),
{
    LoopState {
        phase: LoopPhase::Building,
        server_live: false,
        iter_start: now,
        open_requested,
        opened: false,
    }
}

/// One transition of the loop; `now` is the driver's clock when the event is
/// handled, and becomes the new iteration's start time when a rebuild
/// begins. Events that make no sense in the current phase change nothing.
pub open spec fn loop_step_spec(s: LoopState, ev: LoopEvent, now: u64) -> (LoopState, LoopAction) {
    match s.phase {
        LoopPhase::Building => match ev {
            LoopEvent::ServeOutcome { ok } => if ok {
                let open_browser = s.open_requested && !s.opened;
                (
                    LoopState {
                        phase: LoopPhase::Waiting,
                        server_live: true,
                        opened: s.opened || open_browser,
                        ..s
                    },
                    LoopAction::AnnounceServer { open_browser },
                )
            } else {
                (
                    LoopState { phase: LoopPhase::Waiting, server_live: false, ..s },
                    LoopAction::ReportBuildError,
                )
            },
            _ => (s, LoopAction::Nothing),
        },
        LoopPhase::Waiting => match ev {
            LoopEvent::Trigger { time } => if time > s.iter_start {
                if s.server_live {
                    (LoopState { phase: LoopPhase::Stopping, ..s }, LoopAction::KillServer)
                } else {
                    (
                        LoopState { phase: LoopPhase::Building, iter_start: now, ..s },
                        LoopAction::StartServe,
                    )
                }
            } else {
                (s, LoopAction::Nothing)
            },
            LoopEvent::StreamEnded => (
                LoopState { phase: LoopPhase::Exited, server_live: false, ..s },
                LoopAction::ExitOk { kill_server: s.server_live },
            ),
            _ => (s, LoopAction::Nothing),
        },
        LoopPhase::Stopping => match ev {
            LoopEvent::KillOutcome { ok } => if ok {
                (
                    LoopState {
                        phase: LoopPhase::Building,
                        server_live: false,
                        iter_start: now,
                        ..s
                    },
                    LoopAction::StartServe,
                )
            } else {
                (LoopState { phase: LoopPhase::Exited, ..s }, LoopAction::ExitFatal)
            },
            _ => (s, LoopAction::Nothing),
        },
        LoopPhase::Exited => (s, LoopAction::Nothing),
    }
}

/// Advance the loop by one reported event.
pub fn loop_step(s: LoopState, ev: LoopEvent, now: u64) -> (r: (LoopState, LoopAction))
    ensures
        r == loop_step_spec(s, ev, now),
{
    match s.phase {
        LoopPhase::Building => match ev {
            LoopEvent::ServeOutcome { ok } => if ok {
                let open_browser = s.open_requested && !s.opened;
                (
                    LoopState {
                        phase: LoopPhase::Waiting,
                        server_live: true,
                        opened: s.opened || open_browser,
                        ..s
                    },
                    LoopAction::AnnounceServer { open_browser },
                )
            } else {
                (
                    LoopState { phase: LoopPhase::Waiting, server_live: false, ..s },
                    LoopAction::ReportBuildError,
                )
            },
            _ => (s, LoopAction::Nothing),
        },
        LoopPhase::Waiting => match ev {
            LoopEvent::Trigger { time } => if time > s.iter_start {
                if s.server_live {
                    (LoopState { phase: LoopPhase::Stopping, ..s }, LoopAction::KillServer)
                } else {
                    (
                        LoopState { phase: LoopPhase::Building, iter_start: now, ..s },
                        LoopAction::StartServe,
                    )
                }
            } else {
                (s, LoopAction::Nothing)
            },
            LoopEvent::StreamEnded => (
                LoopState { phase: LoopPhase::Exited, server_live: false, ..s },
                LoopAction::ExitOk { kill_server: s.server_live },
            ),
            _ => (s, LoopAction::Nothing),
        },
        LoopPhase::Stopping => match ev {
            LoopEvent::KillOutcome { ok } => if ok {
                (
                    LoopState {
                        phase: LoopPhase::Building,
                        server_live: false,
                        iter_start: now,
                        ..s
                    },
                    LoopAction::StartServe,
                )
            } else {
                (LoopState { phase: LoopPhase::Exited, ..s }, LoopAction::ExitFatal)
            },
            _ => (s, LoopAction::Nothing),
        },
        LoopPhase::Exited => (s, LoopAction::Nothing),
    }
}

/// The loop's safety invariant: while a build-and-serve attempt is in
/// flight, no server handle is live.
pub open spec fn loop_inv(s: LoopState) -> bool {
    s.phase is Building ==> !s.server_live
}

/// Fold the loop over a trace of timed events, collecting the actions it
/// returns in order.
pub open spec fn loop_run(s: LoopState, evs: Seq<(LoopEvent, u64)>) -> (LoopState, Seq<LoopAction>)
    decreases evs.len(),
{
    if evs.len() == 0 {
        (s, Seq::<LoopAction>::empty())
    } else {
        let first = loop_step_spec(s, evs[0].0, evs[0].1);
        let rest = loop_run(first.0, evs.drop_first());
        (rest.0, seq![first.1] + rest.1)
    }
}

/// One step keeps the single-server invariant, starts a new serve only with
/// no live server, and brings a server live only out of a building phase —
/// where, by the invariant, none was live.
pub proof fn lemma_single_server_step(s: LoopState, ev: LoopEvent, now: u64)
    requires
        loop_inv(s),
    ensures
        loop_inv(loop_step_spec(s, ev, now).0),
        loop_step_spec(s, ev, now).1 is StartServe ==> !loop_step_spec(s, ev, now).0.server_live,
        loop_step_spec(s, ev, now).0.server_live && !s.server_live ==> s.phase is Building
            && !s.server_live,
        s.opened ==> loop_step_spec(s, ev, now).0.opened,
{
}

/// Appending one event to a trace runs it last.
proof fn lemma_loop_run_snoc(s: LoopState, evs: Seq<(LoopEvent, u64)>, e: (LoopEvent, u64))
    ensures
        loop_run(s, evs.push(e)).0 == loop_step_spec(loop_run(s, evs).0, e.0, e.1).0,
    decreases evs.len(),
{
    if evs.len() == 0 {
        assert(evs.push(e).drop_first() =~= Seq::<(LoopEvent, u64)>::empty());
        assert(evs.push(e)[0] == e);
        assert(loop_run(s, evs).0 == s);
        let s1 = loop_step_spec(s, e.0, e.1).0;
        assert(loop_run(s1, Seq::<(LoopEvent, u64)>::empty()).0 == s1);
    } else {
        let s1 = loop_step_spec(s, evs[0].0, evs[0].1).0;
        assert(evs.push(e)[0] == evs[0]);
        assert(evs.push(e).drop_first() =~= evs.drop_first().push(e));
        lemma_loop_run_snoc(s1, evs.drop_first(), e);
    }
}

/// Single-server invariant over whole traces: from the initial state, after
/// any prefix of any event trace the invariant holds, and whenever the next
/// step starts a new serve, no server handle is live — at no point do two
/// servers coexist.
pub proof fn lemma_single_server(open_requested: bool, start: u64, evs: Seq<(LoopEvent, u64)>)
    ensures
        forall|k: int|
            0 <= k <= evs.len() ==> loop_inv(
                #[trigger] loop_run(loop_init_spec(open_requested, start), evs.take(k)).0,
            ),
        forall|k: int|
            0 <= k < evs.len() ==> {
                let mid = #[trigger] loop_run(loop_init_spec(open_requested, start), evs.take(k)).0;
                loop_step_spec(mid, evs[k].0, evs[k].1).1 is StartServe
                    ==> !loop_step_spec(mid, evs[k].0, evs[k].1).0.server_live
            },
{
    let s0 = loop_init_spec(open_requested, start);
    assert forall|k: int| 0 <= k <= evs.len() implies loop_inv(
        #[trigger] loop_run(s0, evs.take(k)).0,
    ) by {
        lemma_prefix_inv(s0, evs, k);
    }
    assert forall|k: int| 0 <= k < evs.len() implies {
        let mid = #[trigger] loop_run(s0, evs.take(k)).0;
        loop_step_spec(mid, evs[k].0, evs[k].1).1 is StartServe ==> !loop_step_spec(
            mid,
            evs[k].0,
            evs[k].1,
        ).0.server_live
    } by {
        lemma_prefix_inv(s0, evs, k);
        lemma_single_server_step(loop_run(s0, evs.take(k)).0, evs[k].0, evs[k].1);
    }
}

/// The invariant holds after any prefix of a trace from an invariant state.
proof fn lemma_prefix_inv(s: LoopState, evs: Seq<(LoopEvent, u64)>, k: int)
    requires
        loop_inv(s),
        0 <= k <= evs.len(),
    ensures
        loop_inv(loop_run(s, evs.take(k)).0),
    decreases k,
{
    if k == 0 {
        assert(evs.take(0) =~= Seq::<(LoopEvent, u64)>::empty());
    } else {
        lemma_prefix_inv(s, evs, k - 1);
        assert(evs.take(k) =~= evs.take(k - 1).push(evs[k - 1]));
        lemma_loop_run_snoc(s, evs.take(k - 1), evs[k - 1]);
        lemma_single_server_step(loop_run(s, evs.take(k - 1)).0, evs[k - 1].0, evs[k - 1].1);
    }
}

/// Once the browser has been opened it stays recorded as opened along any
/// trace.
proof fn lemma_opened_monotone(s: LoopState, evs: Seq<(LoopEvent, u64)>)
    requires
        s.opened,
    ensures
        loop_run(s, evs).0.opened,
        forall|a: LoopAction|
            loop_run(s, evs).1.contains(a) ==> !(a == (LoopAction::AnnounceServer {
                open_browser: true,
            })),
    decreases evs.len(),
{
    if evs.len() > 0 {
        let first = loop_step_spec(s, evs[0].0, evs[0].1);
        assert(first.0.opened);
        assert(!(first.1 == (LoopAction::AnnounceServer { open_browser: true })));
        lemma_opened_monotone(first.0, evs.drop_first());
        assert forall|a: LoopAction| loop_run(s, evs).1.contains(a) implies !(a
            == (LoopAction::AnnounceServer { open_browser: true })) by {
            let out = loop_run(s, evs).1;
            let i = choose|i: int| 0 <= i < out.len() && out[i] == a;
            if i > 0 {
                assert(loop_run(first.0, evs.drop_first()).1[i - 1] == a);
                assert(loop_run(first.0, evs.drop_first()).1.contains(a));
            }
        }
    }
}

/// The browser is opened at most once across the whole life of the loop:
/// no trace from the initial state returns the open-browser action twice.
pub proof fn lemma_browser_opened_once(
    open_requested: bool,
    start: u64,
    evs: Seq<(LoopEvent, u64)>,
    k1: int,
    k2: int,
)
    requires
        0 <= k1 < k2 < loop_run(loop_init_spec(open_requested, start), evs).1.len(),
        loop_run(loop_init_spec(open_requested, start), evs).1[k1] == (LoopAction::AnnounceServer {
            open_browser: true,
        }),
    ensures
        !(loop_run(loop_init_spec(open_requested, start), evs).1[k2]
            == (LoopAction::AnnounceServer { open_browser: true })),
{
    lemma_browser_once_from(loop_init_spec(open_requested, start), evs, k1, k2);
}

/// Helper: the at-most-once property from any not-yet-opened state.
proof fn lemma_browser_once_from(s: LoopState, evs: Seq<(LoopEvent, u64)>, k1: int, k2: int)
    requires
        !s.opened,
        0 <= k1 < k2 < loop_run(s, evs).1.len(),
        loop_run(s, evs).1[k1] == (LoopAction::AnnounceServer { open_browser: true }),
    ensures
        !(loop_run(s, evs).1[k2] == (LoopAction::AnnounceServer { open_browser: true })),
    decreases evs.len(),
{
    lemma_run_len(s, evs);
    let first = loop_step_spec(s, evs[0].0, evs[0].1);
    if k1 == 0 {
        assert(first.1 == (LoopAction::AnnounceServer { open_browser: true }));
        assert(first.0.opened);
        lemma_opened_monotone(first.0, evs.drop_first());
        assert(loop_run(first.0, evs.drop_first()).1[k2 - 1] == loop_run(s, evs).1[k2]);
        assert(loop_run(first.0, evs.drop_first()).1.contains(loop_run(s, evs).1[k2]));
    } else {
        assert(loop_run(first.0, evs.drop_first()).1[k1 - 1] == loop_run(s, evs).1[k1]);
        assert(loop_run(first.0, evs.drop_first()).1[k2 - 1] == loop_run(s, evs).1[k2]);
        if first.0.opened {
            lemma_opened_monotone(first.0, evs.drop_first());
            assert(loop_run(first.0, evs.drop_first()).1.contains(loop_run(s, evs).1[k1]));
            assert(false);
        } else {
            lemma_browser_once_from(first.0, evs.drop_first(), k1 - 1, k2 - 1);
        }
    }
}

/// A run returns one action per event.
proof fn lemma_run_len(s: LoopState, evs: Seq<(LoopEvent, u64)>)
    ensures
        loop_run(s, evs).1.len() == evs.len(),
    decreases evs.len(),
{
    if evs.len() > 0 {
        lemma_run_len(loop_step_spec(s, evs[0].0, evs[0].1).0, evs.drop_first());
    }
}

} // verus!
