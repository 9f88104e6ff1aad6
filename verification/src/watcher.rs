//! Debounced change watcher.
//!
//! Raw filesystem events are classified as relevant or not (see
//! [`crate::filter`]) and fed, together with timer expirations, into a small
//! state machine. The first relevant change starts a fixed idle window; every
//! further change inside the window is drained without extending it; when the
//! timer fires, exactly one rebuild trigger is emitted and the machine returns
//! to waiting. The driver owns the actual watch and timer and performs the
//! actions this machine returns.

use vstd::prelude::*;

use crate::filter::is_relevant_path;
use crate::filter::relevant_path;

verus! {

/// State of the debouncer: either waiting for the first relevant change, or
/// draining a burst until the idle timer at `deadline` fires.
#[derive(Clone, Copy, Debug, PartialEq, Eq, Structural)]
pub enum WatcherState {
    Idle,
    Draining { deadline: u64 },
}

/// One input to the debouncer: a filesystem change (already classified) or
/// the expiration of the idle timer.
#[derive(Clone, Copy, Debug, PartialEq, Eq, Structural)]
pub enum WatchEvent {
    Change { time: u64, relevant: bool },
    Timeout { time: u64 },
}

/// What the driver must do after a step: nothing, start the idle timer that
/// will fire at `deadline`, or emit one rebuild trigger stamped `trigger`.
#[derive(Clone, Copy, Debug, PartialEq, Eq, Structural)]
pub enum WatchAction {
    Nothing,
    StartTimer { deadline: u64 },
    Emit { trigger: u64 },
}

/// The event is no reason to leave `Idle`: an irrelevant change, or a stale
/// timer expiration.
pub open spec fn ignorable(ev: WatchEvent) -> bool {
    match ev {
        WatchEvent::Change { relevant, .. } => !relevant,
        WatchEvent::Timeout { .. } => true,
    }
}

/// One transition of the debouncer.
pub open spec fn step_spec(s: WatcherState, ev: WatchEvent, interval: u64) -> (WatcherState,
    WatchAction) {
    match s {
        WatcherState::Idle => match ev {
            WatchEvent::Change { time, relevant } => if relevant {
                let d = (time + interval) as u64;
                (
                    WatcherState::Draining { deadline: d },
                    WatchAction::StartTimer { deadline: d },
                )
            } else {
                (WatcherState::Idle, WatchAction::Nothing)
            },
            WatchEvent::Timeout { .. } => (WatcherState::Idle, WatchAction::Nothing),
        },
        WatcherState::Draining { deadline } => match ev {
            WatchEvent::Change { .. } => (
                WatcherState::Draining { deadline },
                WatchAction::Nothing,
            ),
            WatchEvent::Timeout { time } => (WatcherState::Idle, WatchAction::Emit { trigger: time }),
        },
    }
}

/// The step needs no truncating arithmetic: the only sum it forms stays in
/// range.
pub open spec fn step_fits(s: WatcherState, ev: WatchEvent, interval: u64) -> bool {
    match (s, ev) {
        (WatcherState::Idle, WatchEvent::Change { time, relevant }) => relevant ==> time + interval
            <= u64::MAX,
        _ => true,
    }
}

/// Advance the debouncer by one event.
pub fn watch_step(s: WatcherState, ev: WatchEvent, interval: u64) -> (r: (WatcherState, WatchAction))
    requires
        step_fits(s, ev, interval),
    ensures
        r == step_spec(s, ev, interval),
{
    match s {
        WatcherState::Idle => match ev {
            WatchEvent::Change { time, relevant } => if relevant {
                let d = time + interval;
                (
                    WatcherState::Draining { deadline: d },
                    WatchAction::StartTimer { deadline: d },
                )
            } else {
                (WatcherState::Idle, WatchAction::Nothing)
            },
            WatchEvent::Timeout { .. } => (WatcherState::Idle, WatchAction::Nothing),
        },
        WatcherState::Draining { deadline } => match ev {
            WatchEvent::Change { .. } => (
                WatcherState::Draining { deadline },
                WatchAction::Nothing,
            ),
            WatchEvent::Timeout { time } => (WatcherState::Idle, WatchAction::Emit { trigger: time }),
        },
    }
}

/// Classify a raw filesystem event for the debouncer.
pub fn classify_change(time: u64, path: &[u8]) -> (ev: WatchEvent)
    ensures
        ev == (WatchEvent::Change { time, relevant: relevant_path(path@) }),
{
    WatchEvent::Change { time, relevant: is_relevant_path(path) }
}

/// The triggers emitted by one action.
pub open spec fn emitted(a: WatchAction) -> Seq<u64> {
    match a {
        WatchAction::Emit { trigger } => seq![trigger],
        _ => Seq::<u64>::empty(),
    }
}

/// Fold the debouncer over a whole event trace, collecting the triggers it
/// emits in order.
pub open spec fn run_spec(s: WatcherState, evs: Seq<WatchEvent>, interval: u64) -> (WatcherState,
    Seq<u64>)
    decreases evs.len(),
{
    if evs.len() == 0 {
        (s, Seq::<u64>::empty())
    } else {
        let first = step_spec(s, evs[0], interval);
        let rest = run_spec(first.0, evs.drop_first(), interval);
        (rest.0, emitted(first.1) + rest.1)
    }
}

/// Running the empty trace does nothing.
pub proof fn lemma_run_empty(s: WatcherState, interval: u64)
    ensures
        run_spec(s, Seq::<WatchEvent>::empty(), interval) == (s, Seq::<u64>::empty()),
{
}

/// Running a single event is one step.
pub proof fn lemma_run_one(s: WatcherState, ev: WatchEvent, interval: u64)
    ensures
        run_spec(s, seq![ev], interval).0 == step_spec(s, ev, interval).0,
        run_spec(s, seq![ev], interval).1 == emitted(step_spec(s, ev, interval).1),
{
    let evs = seq![ev];
    let s1 = step_spec(s, ev, interval).0;
    assert(evs.drop_first() =~= Seq::<WatchEvent>::empty());
    lemma_run_empty(s1, interval);
    assert(run_spec(s, evs, interval).1 =~= emitted(step_spec(s, ev, interval).1));
}

/// Running a trace split in two is running the halves in sequence.
pub proof fn lemma_run_concat(s: WatcherState, a: Seq<WatchEvent>, b: Seq<WatchEvent>, interval: u64)
    ensures
        run_spec(s, a + b, interval).0 == run_spec(run_spec(s, a, interval).0, b, interval).0,
        run_spec(s, a + b, interval).1 == run_spec(s, a, interval).1 + run_spec(
            run_spec(s, a, interval).0,
            b,
            interval,
        ).1,
    decreases a.len(),
{
    if a.len() == 0 {
        assert(a + b =~= b);
        assert(run_spec(s, a, interval).1 + run_spec(s, b, interval).1 =~= run_spec(
            s,
            b,
            interval,
        ).1);
    } else {
        let s1 = step_spec(s, a[0], interval).0;
        assert((a + b)[0] == a[0]);
        assert((a + b).drop_first() =~= a.drop_first() + b);
        lemma_run_concat(s1, a.drop_first(), b, interval);
        assert(emitted(step_spec(s, a[0], interval).1) + (run_spec(
            s1,
            a.drop_first(),
            interval,
        ).1 + run_spec(run_spec(s1, a.drop_first(), interval).0, b, interval).1) =~= run_spec(
            s,
            a,
            interval,
        ).1 + run_spec(run_spec(s, a, interval).0, b, interval).1);
    }
}

/// While draining, further changes neither emit a trigger nor move the
/// deadline: the idle window is never extended.
pub proof fn lemma_drain_absorbs(deadline: u64, evs: Seq<WatchEvent>, interval: u64)
    requires
        forall|k: int| 0 <= k < evs.len() ==> evs[k] is Change,
    ensures
        run_spec(WatcherState::Draining { deadline }, evs, interval).0 == (WatcherState::Draining {
            deadline,
        }),
        run_spec(WatcherState::Draining { deadline }, evs, interval).1 == Seq::<u64>::empty(),
    decreases evs.len(),
{
    if evs.len() > 0 {
        assert(evs[0] is Change);
        lemma_drain_absorbs(deadline, evs.drop_first(), interval);
        assert(run_spec(WatcherState::Draining { deadline }, evs, interval).1 =~= Seq::<
            u64,
        >::empty());
    }
}

/// Debouncing a burst: a first relevant change followed by any further
/// changes inside the idle window, closed by the timer firing, emits exactly
/// one trigger, stamped after every change in the burst, and leaves the
/// machine idle again.
pub proof fn lemma_burst_emits_one(
    first: u64,
    burst: Seq<WatchEvent>,
    fire: u64,
    interval: u64,
)
    requires
        first + interval <= u64::MAX,
        forall|k: int| 0 <= k < burst.len() ==> burst[k] is Change,
        forall|k: int| 0 <= k < burst.len() ==> burst[k]->Change_time < first + interval,
        fire >= first + interval,
    ensures
        ({
            let trace = seq![WatchEvent::Change { time: first, relevant: true }] + burst + seq![
                WatchEvent::Timeout { time: fire },
            ];
            &&& run_spec(WatcherState::Idle, trace, interval).1 == seq![fire]
            &&& run_spec(WatcherState::Idle, trace, interval).0 is Idle
            &&& forall|k: int| 0 <= k < burst.len() ==> burst[k]->Change_time < fire
        }),
{
    let d = (first + interval) as u64;
    let head = seq![WatchEvent::Change { time: first, relevant: true }];
    let tail = seq![WatchEvent::Timeout { time: fire }];
    let trace = head + burst + tail;

    lemma_run_concat(WatcherState::Idle, head + burst, tail, interval);
    lemma_run_concat(WatcherState::Idle, head, burst, interval);

    lemma_run_one(WatcherState::Idle, WatchEvent::Change { time: first, relevant: true }, interval);
    assert(run_spec(WatcherState::Idle, head, interval).0 == (WatcherState::Draining {
        deadline: d,
    }));
    assert(run_spec(WatcherState::Idle, head, interval).1 =~= Seq::<u64>::empty());

    lemma_drain_absorbs(d, burst, interval);
    lemma_run_one(WatcherState::Draining { deadline: d }, WatchEvent::Timeout { time: fire }, interval);

    assert(run_spec(WatcherState::Idle, trace, interval).1 =~= seq![fire]);
}

/// Changes that the filter rejects, and stray timer expirations, never
/// produce a trigger and never start an idle window.
pub proof fn lemma_irrelevant_no_trigger(evs: Seq<WatchEvent>, interval: u64)
    requires
        forall|k: int| 0 <= k < evs.len() ==> ignorable(evs[k]),
    ensures
        run_spec(WatcherState::Idle, evs, interval).0 is Idle,
        run_spec(WatcherState::Idle, evs, interval).1 == Seq::<u64>::empty(),
    decreases evs.len(),
{
    if evs.len() > 0 {
        assert(ignorable(evs[0]));
        lemma_irrelevant_no_trigger(evs.drop_first(), interval);
        assert(run_spec(WatcherState::Idle, evs, interval).1 =~= Seq::<u64>::empty());
    }
}

/// A trace of raw changes, each classified by the path filter.
pub open spec fn classified_trace(changes: Seq<(u64, Seq<u8>)>) -> Seq<WatchEvent> {
    changes.map(|i: int, c: (u64, Seq<u8>)| WatchEvent::Change { time: c.0, relevant: relevant_path(c.1) })
}

/// Changes under the build-output tree, under the tooling data tree, or
/// without a source segment never produce a trigger, even alone: the watcher
/// stays idle through any number of them.
pub proof fn lemma_filtered_paths_never_trigger(changes: Seq<(u64, Seq<u8>)>, interval: u64)
    requires
        forall|k: int| 0 <= k < changes.len() ==> !relevant_path(changes[k].1),
    ensures
        run_spec(WatcherState::Idle, classified_trace(changes), interval).0 is Idle,
        run_spec(WatcherState::Idle, classified_trace(changes), interval).1 == Seq::<u64>::empty(),
{
    let trace = classified_trace(changes);
    assert forall|k: int| 0 <= k < trace.len() implies ignorable(trace[k]) by {
        assert(!relevant_path(changes[k].1));
    }
    lemma_irrelevant_no_trigger(trace, interval);
}

/// The trace of well-spaced changes: each one starts its own idle window and
/// the timer fires before the next change arrives.
pub open spec fn spaced_trace(times: Seq<u64>, interval: u64) -> Seq<WatchEvent>
    decreases times.len(),
{
    if times.len() == 0 {
        Seq::<WatchEvent>::empty()
    } else {
        seq![
            WatchEvent::Change { time: times[0], relevant: true },
            WatchEvent::Timeout { time: (times[0] + interval) as u64 },
        ] + spaced_trace(times.drop_first(), interval)
    }
}

/// Debouncing well-spaced changes: when every change is followed by its own
/// timer expiration before the next change arrives, each change yields its
/// own trigger — N changes, N triggers.
pub proof fn lemma_spaced_emits_each(times: Seq<u64>, interval: u64)
    requires
        forall|k: int| 0 <= k < times.len() ==> times[k] + interval <= u64::MAX,
        forall|k: int| 0 <= k < times.len() - 1 ==> #[trigger] times[k + 1] > times[k] + interval,
    ensures
        run_spec(WatcherState::Idle, spaced_trace(times, interval), interval).0 is Idle,
        run_spec(WatcherState::Idle, spaced_trace(times, interval), interval).1.len()
            == times.len(),
        forall|k: int|
            0 <= k < times.len() ==> run_spec(
                WatcherState::Idle,
                spaced_trace(times, interval),
                interval,
            ).1[k] == times[k] + interval,
    decreases times.len(),
{
    if times.len() > 0 {
        let d = (times[0] + interval) as u64;
        let head = seq![
            WatchEvent::Change { time: times[0], relevant: true },
            WatchEvent::Timeout { time: d },
        ];
        let rest = spaced_trace(times.drop_first(), interval);
        assert(spaced_trace(times, interval) == head + rest);
        lemma_run_concat(WatcherState::Idle, head, rest, interval);
        let change = WatchEvent::Change { time: times[0], relevant: true };
        let timeout = WatchEvent::Timeout { time: d };
        assert(head =~= seq![change] + seq![timeout]);
        lemma_run_concat(WatcherState::Idle, seq![change], seq![timeout], interval);
        lemma_run_one(WatcherState::Idle, change, interval);
        lemma_run_one(WatcherState::Draining { deadline: d }, timeout, interval);
        assert(run_spec(WatcherState::Idle, head, interval).0 is Idle);
        assert(run_spec(WatcherState::Idle, head, interval).1 =~= seq![d]);
        lemma_spaced_emits_each(times.drop_first(), interval);
        let full = run_spec(WatcherState::Idle, spaced_trace(times, interval), interval).1;
        let tail_out = run_spec(WatcherState::Idle, rest, interval).1;
        assert(full =~= seq![d] + tail_out);
        assert forall|k: int| 0 <= k < times.len() implies full[k] == times[k] + interval by {
            if k > 0 {
                assert(tail_out[k - 1] == times.drop_first()[k - 1] + interval);
                assert(times.drop_first()[k - 1] == times[k]);
            }
        }
    }
}

} // verus!
