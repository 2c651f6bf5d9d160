use vstd::prelude::*;
use crate::dev::debounce::{errors_of, paths_of, split_batch, RawEvent};

verus! {

/// How one synchronous invocation of the site builder ended.
pub enum BuildOutcome {
    Success,
    Failure(String),
}

/// The control state of the rebuild loop. `Waiting` blocks for the next
/// debounced batch; `Building` means a rebuild is in flight, with the raw
/// events that arrived meanwhile queued in `pending`.
pub enum LoopState {
    Waiting,
    Building { pending: Vec<RawEvent> },
}

/// One occurrence the loop reacts to: a debounced batch of raw events became
/// ready, the in-flight rebuild returned, or the event channel closed
/// unexpectedly (the watcher is gone, so watching cannot continue).
pub enum LoopEvent {
    Batch(Vec<RawEvent>),
    BuildDone(BuildOutcome),
    ChannelClosed,
}

/// What the loop decides on one event: the next state, whether to start a
/// rebuild (and for which changed paths), which per-event watch errors to
/// report as warnings, which rebuild failure to report (recovered, never
/// fatal), and whether the loop must terminate.
pub struct StepOutput {
    pub state: LoopState,
    pub start_build: Option<Vec<String>>,
    pub warnings: Vec<String>,
    pub build_error: Option<String>,
    pub terminate: bool,
}

/// The raw events queued behind the in-flight rebuild; empty while waiting.
pub open spec fn pending_of(s: LoopState) -> Seq<RawEvent> {
    match s {
        LoopState::Waiting => Seq::empty(),
        LoopState::Building { pending } => pending@,
    }
}

/// The full transition relation of the rebuild loop. `step` is proved to
/// satisfy it, and the loop's laws are proved from it.
pub open spec fn step_rel(state: LoopState, event: LoopEvent, out: StepOutput) -> bool {
    match event {
        LoopEvent::Batch(events) => match state {
            LoopState::Waiting => {
                &&& out.warnings@ == errors_of(events@)
                &&& out.build_error is None
                &&& !out.terminate
                &&& if paths_of(events@).len() == 0 {
                    out.state is Waiting && out.start_build is None
                } else {
                    &&& out.state matches LoopState::Building { pending } && pending@.len() == 0
                    &&& out.start_build matches Some(p) && p@ == paths_of(events@)
                }
            },
            LoopState::Building { pending } => {
                &&& out.state matches LoopState::Building { pending: queued } && queued@ == pending@
                    + events@
                &&& out.start_build is None
                &&& out.warnings@.len() == 0
                &&& out.build_error is None
                &&& !out.terminate
            },
        },
        LoopEvent::BuildDone(outcome) => match state {
            LoopState::Waiting => {
                &&& out.state is Waiting
                &&& out.start_build is None
                &&& out.warnings@.len() == 0
                &&& out.build_error is None
                &&& !out.terminate
            },
            LoopState::Building { pending } => {
                &&& out.build_error == (match outcome {
                    BuildOutcome::Success => None::<String>,
                    BuildOutcome::Failure(m) => Some(m),
                })
                &&& !out.terminate
                &&& out.warnings@ == errors_of(pending@)
                &&& if paths_of(pending@).len() == 0 {
                    out.state is Waiting && out.start_build is None
                } else {
                    &&& out.state matches LoopState::Building { pending: queued } && queued@.len()
                        == 0
                    &&& out.start_build matches Some(p) && p@ == paths_of(pending@)
                }
            },
        },
        LoopEvent::ChannelClosed => {
            &&& out.terminate
            &&& out.state == state
            &&& out.start_build is None
            &&& out.warnings@.len() == 0
            &&& out.build_error is None
        },
    }
}

/// Decides the loop's reaction to one event. The caller performs the decided
/// actions: it reports every warning individually, reports a rebuild failure
/// as a recovered error, starts the site builder when `start_build` says so
/// (feeding the result back as a `BuildDone` event), and stops only on
/// `terminate`. A rebuild failure never terminates the loop; only the closing
/// of the event channel does.
pub fn step(state: LoopState, event: LoopEvent) -> (out: StepOutput)
    ensures
        step_rel(state, event, out),
{
    match event {
        LoopEvent::Batch(events) => match state {
            LoopState::Waiting => {
                let (batch, errors) = split_batch(events);
                if batch.paths.len() == 0 {
                    StepOutput {
                        state: LoopState::Waiting,
                        start_build: None,
                        warnings: errors,
                        build_error: None,
                        terminate: false,
                    }
                } else {
                    StepOutput {
                        state: LoopState::Building { pending: Vec::new() },
                        start_build: Some(batch.paths),
                        warnings: errors,
                        build_error: None,
                        terminate: false,
                    }
                }
            },
            LoopState::Building { pending } => {
                let mut queued = pending;
                let mut arrived = events;
                queued.append(&mut arrived);
                StepOutput {
                    state: LoopState::Building { pending: queued },
                    start_build: None,
                    warnings: Vec::new(),
                    build_error: None,
                    terminate: false,
                }
            },
        },
        LoopEvent::BuildDone(outcome) => match state {
            LoopState::Waiting => StepOutput {
                state: LoopState::Waiting,
                start_build: None,
                warnings: Vec::new(),
                build_error: None,
                terminate: false,
            },
            LoopState::Building { pending } => {
                let build_error = match outcome {
                    BuildOutcome::Success => None,
                    BuildOutcome::Failure(m) => Some(m),
                };
                let (batch, errors) = split_batch(pending);
                if batch.paths.len() == 0 {
                    StepOutput {
                        state: LoopState::Waiting,
                        start_build: None,
                        warnings: errors,
                        build_error,
                        terminate: false,
                    }
                } else {
                    StepOutput {
                        state: LoopState::Building { pending: Vec::new() },
                        start_build: Some(batch.paths),
                        warnings: errors,
                        build_error,
                        terminate: false,
                    }
                }
            },
        },
        LoopEvent::ChannelClosed => StepOutput {
            state,
            start_build: None,
            warnings: Vec::new(),
            build_error: None,
            terminate: true,
        },
    }
}

/// At most one rebuild is in flight at a time: while the loop is in the
/// `Building` state, no event other than the completion of the running
/// rebuild can start another one. A batch that becomes ready meanwhile is
/// queued and waits for the running rebuild to return.
pub proof fn lemma_no_overlapping_rebuilds(state: LoopState, event: LoopEvent, out: StepOutput)
    requires
        step_rel(state, event, out),
        state is Building,
        !(event is BuildDone),
    ensures
        out.start_build is None,
{
}

/// A rebuild failure is recovered locally: it is reported, the loop does not
/// terminate, and a subsequent batch with at least one changed path still
/// starts a new rebuild attempt.
pub proof fn lemma_rebuild_isolation(
    state: LoopState,
    message: String,
    out_fail: StepOutput,
    events: Vec<RawEvent>,
    out_next: StepOutput,
)
    requires
        state is Building,
        pending_of(state).len() == 0,
        step_rel(state, LoopEvent::BuildDone(BuildOutcome::Failure(message)), out_fail),
        step_rel(out_fail.state, LoopEvent::Batch(events), out_next),
        paths_of(events@).len() > 0,
    ensures
        !out_fail.terminate,
        out_fail.build_error == Some(message),
        out_fail.state is Waiting,
        out_next.start_build matches Some(p) && p@ == paths_of(events@),
{
}

/// The state the loop is in when it takes step `k` of a run: the initial
/// state for the first step, afterwards the state the previous step left.
pub open spec fn state_before(init: LoopState, outs: Seq<StepOutput>, k: int) -> LoopState {
    if k == 0 {
        init
    } else {
        outs[k - 1].state
    }
}

/// A run of the loop: step `k` reacted to event `k` with output `k`, each
/// step starting from the state the previous one left.
pub open spec fn trace_ok(init: LoopState, events: Seq<LoopEvent>, outs: Seq<StepOutput>) -> bool {
    &&& outs.len() == events.len()
    &&& forall|k: int|
        0 <= k < events.len() ==> step_rel(state_before(init, outs, k), events[k], outs[k])
}

/// While a rebuild is in flight and no build completion arrives, the loop
/// stays in the `Building` state and starts nothing.
pub proof fn lemma_building_holds(
    init: LoopState,
    events: Seq<LoopEvent>,
    outs: Seq<StepOutput>,
    i: int,
    j: int,
)
    requires
        trace_ok(init, events, outs),
        0 <= i <= j < outs.len(),
        outs[i].state is Building,
        forall|k: int| i < k <= j ==> !((#[trigger] events[k]) is BuildDone),
    ensures
        forall|k: int|
            i < k <= j ==> (#[trigger] outs[k]).start_build is None && outs[k].state is Building,
    decreases j - i,
{
    if i < j {
        lemma_building_holds(init, events, outs, i, j - 1);
        assert(state_before(init, outs, j) is Building);
        assert(step_rel(state_before(init, outs, j), events[j], outs[j]));
    }
}

/// At most one rebuild is in flight over any whole run: between any two steps
/// that start a rebuild, some event in between reports the completion of the
/// earlier one. No second invocation of the site builder can overlap the
/// first.
pub proof fn lemma_one_rebuild_at_a_time(
    init: LoopState,
    events: Seq<LoopEvent>,
    outs: Seq<StepOutput>,
    i: int,
    j: int,
)
    requires
        trace_ok(init, events, outs),
        0 <= i < j < outs.len(),
        outs[i].start_build is Some,
        outs[j].start_build is Some,
    ensures
        exists|k: int| i < k <= j && (#[trigger] events[k]) is BuildDone,
{
    assert(step_rel(state_before(init, outs, i), events[i], outs[i]));
    assert(outs[i].state is Building);
    if forall|k: int| i < k <= j ==> !((#[trigger] events[k]) is BuildDone) {
        lemma_building_holds(init, events, outs, i, j);
        assert(outs[j].start_build is None);
        assert(false);
    }
}

/// One loop event carrying a batch that holds only watch errors.
pub open spec fn error_only_batch(event: LoopEvent) -> bool {
    match event {
        LoopEvent::Batch(events) => forall|i: int|
            0 <= i < events@.len() ==> (#[trigger] events@[i]) is WatchError,
        _ => false,
    }
}

proof fn lemma_error_only_run_upto(
    init: LoopState,
    events: Seq<LoopEvent>,
    outs: Seq<StepOutput>,
    n: int,
)
    requires
        trace_ok(init, events, outs),
        init is Waiting,
        forall|k: int| 0 <= k < events.len() ==> error_only_batch(#[trigger] events[k]),
        0 <= n <= outs.len(),
    ensures
        forall|k: int|
            0 <= k < n ==> (#[trigger] outs[k]).start_build is None && outs[k].state is Waiting,
    decreases n,
{
    if n > 0 {
        lemma_error_only_run_upto(init, events, outs, n - 1);
        assert(state_before(init, outs, n - 1) is Waiting);
        assert(step_rel(state_before(init, outs, n - 1), events[n - 1], outs[n - 1]));
        let batch = events[n - 1]->Batch_0;
        crate::dev::debounce::lemma_all_errors(batch@);
    }
}

/// Empty-batch suppression over a whole run: a loop that starts out waiting
/// and sees nothing but windows of watch errors starts zero rebuilds and
/// keeps waiting.
pub proof fn lemma_error_only_run(init: LoopState, events: Seq<LoopEvent>, outs: Seq<StepOutput>)
    requires
        trace_ok(init, events, outs),
        init is Waiting,
        forall|k: int| 0 <= k < events.len() ==> error_only_batch(#[trigger] events[k]),
    ensures
        forall|k: int|
            0 <= k < outs.len() ==> (#[trigger] outs[k]).start_build is None && outs[k].state
                is Waiting,
{
    lemma_error_only_run_upto(init, events, outs, outs.len() as int);
}

/// Debounce coalescing: raw path-change events all arriving within one
/// debounce window of the first are grouped into exactly one batch, the batch
/// holds every changed path in arrival order, and a waiting loop reacts to it
/// with exactly one rebuild covering all of those paths.
pub proof fn lemma_debounce_coalescing(
    events: Seq<crate::dev::debounce::TimedEvent>,
    window_ms: u64,
    batch: Vec<RawEvent>,
    out: StepOutput,
)
    requires
        events.len() > 0,
        forall|i: int| 0 <= i < events.len() ==> #[trigger] events[i].at_ms - events[0].at_ms
            <= window_ms,
        forall|i: int| 0 <= i < events.len() ==> (#[trigger] events[i].event) is PathChanged,
        batch@ == crate::dev::debounce::raw_of(events),
        step_rel(LoopState::Waiting, LoopEvent::Batch(batch), out),
    ensures
        crate::dev::debounce::spec_windows(events, window_ms) == seq![batch@],
        out.start_build matches Some(p) && p@ == batch@.map_values(
            |e: RawEvent| e->PathChanged_0,
        ),
        out.state is Building,
        out.warnings@.len() == 0,
{
    crate::dev::debounce::lemma_single_window(events, window_ms);
    assert(forall|i: int| 0 <= i < batch@.len() ==> (#[trigger] batch@[i]) is PathChanged);
    crate::dev::debounce::lemma_all_changes(batch@);
    assert(paths_of(batch@).len() == batch@.len());
}

/// A window that held only watch errors triggers no rebuild: the loop keeps
/// waiting, and every error cause is reported individually, in order.
pub proof fn lemma_empty_batch_suppression(events: Vec<RawEvent>, out: StepOutput)
    requires
        forall|i: int| 0 <= i < events@.len() ==> events@[i] is WatchError,
        step_rel(LoopState::Waiting, LoopEvent::Batch(events), out),
    ensures
        out.start_build is None,
        out.state is Waiting,
        out.warnings@ == events@.map_values(|e: RawEvent| e->WatchError_0),
{
    crate::dev::debounce::lemma_all_errors(events@);
}

} // verus!
