use vstd::prelude::*;

verus! {

/// One raw notification from the filesystem watcher: either a genuine change
/// of a watched path, or a transport error of the watch subsystem carrying its
/// cause. Errors are always non-fatal and are reported individually.
pub enum RawEvent {
    PathChanged(String),
    WatchError(String),
}

/// A raw event together with its arrival time, in milliseconds.
pub struct TimedEvent {
    pub at_ms: u64,
    pub event: RawEvent,
}

/// All filesystem mutations observed within one debounce window, in arrival
/// order. Duplicate paths are permitted; an empty batch (the window held only
/// errors) must not trigger a rebuild.
pub struct ChangeBatch {
    pub paths: Vec<String>,
}

/// The changed paths of an event sequence, in arrival order.
pub open spec fn paths_of(events: Seq<RawEvent>) -> Seq<String>
    decreases events.len(),
{
    if events.len() == 0 {
        Seq::empty()
    } else {
        let rest = paths_of(events.drop_first());
        match events[0] {
            RawEvent::PathChanged(p) => seq![p] + rest,
            RawEvent::WatchError(_) => rest,
        }
    }
}

/// The error causes of an event sequence, in arrival order.
pub open spec fn errors_of(events: Seq<RawEvent>) -> Seq<String>
    decreases events.len(),
{
    if events.len() == 0 {
        Seq::empty()
    } else {
        let rest = errors_of(events.drop_first());
        match events[0] {
            RawEvent::PathChanged(_) => rest,
            RawEvent::WatchError(c) => seq![c] + rest,
        }
    }
}

/// In a sequence of nothing but path changes, the batch keeps every path in
/// order and no error is extracted.
pub proof fn lemma_all_changes(events: Seq<RawEvent>)
    requires
        forall|i: int| 0 <= i < events.len() ==> events[i] is PathChanged,
    ensures
        paths_of(events) == events.map_values(|e: RawEvent| e->PathChanged_0),
        errors_of(events) == Seq::<String>::empty(),
    decreases events.len(),
{
    if events.len() == 0 {
        assert(paths_of(events) =~= events.map_values(|e: RawEvent| e->PathChanged_0));
    } else {
        lemma_all_changes(events.drop_first());
        assert(paths_of(events) =~= events.map_values(|e: RawEvent| e->PathChanged_0));
    }
}

/// In a sequence of nothing but watch errors, every cause is extracted in
/// order and the batch is empty.
pub proof fn lemma_all_errors(events: Seq<RawEvent>)
    requires
        forall|i: int| 0 <= i < events.len() ==> events[i] is WatchError,
    ensures
        errors_of(events) == events.map_values(|e: RawEvent| e->WatchError_0),
        paths_of(events) == Seq::<String>::empty(),
    decreases events.len(),
{
    if events.len() == 0 {
        assert(errors_of(events) =~= events.map_values(|e: RawEvent| e->WatchError_0));
    } else {
        lemma_all_errors(events.drop_first());
        assert(errors_of(events) =~= events.map_values(|e: RawEvent| e->WatchError_0));
    }
}

impl ChangeBatch {
    /// An empty batch means every event of its window was an error; such a
    /// batch must not trigger a rebuild.
    pub fn is_empty(&self) -> (r: bool)
        ensures
            r == (self.paths@.len() == 0),
    {
        self.paths.len() == 0
    }
}

impl RawEvent {
    /// An equal copy of the event.
    pub fn duplicate(&self) -> (r: RawEvent)
        ensures
            r == *self,
    {
        match self {
            RawEvent::PathChanged(p) => RawEvent::PathChanged(p.clone()),
            RawEvent::WatchError(c) => RawEvent::WatchError(c.clone()),
        }
    }
}

/// The raw events of a timed sequence, in arrival order.
pub open spec fn raw_of(events: Seq<TimedEvent>) -> Seq<RawEvent> {
    events.map_values(|t: TimedEvent| t.event)
}

/// Timestamps never decrease along the sequence.
pub open spec fn sorted_by_time(events: Seq<TimedEvent>) -> bool {
    forall|i: int, j: int|
        0 <= i <= j < events.len() ==> #[trigger] events[i].at_ms <= #[trigger] events[j].at_ms
}

/// Continues the window that began at `start` and already collected `cur`:
/// every further event arriving within `window_ms` of the start joins the
/// window; the first later one closes it and begins the next window.
pub open spec fn spec_fill(
    cur: Seq<RawEvent>,
    start: u64,
    rest: Seq<TimedEvent>,
    window_ms: u64,
) -> Seq<Seq<RawEvent>>
    decreases rest.len(), 1int,
{
    if rest.len() == 0 {
        seq![cur]
    } else if rest[0].at_ms - start <= window_ms {
        spec_fill(cur.push(rest[0].event), start, rest.drop_first(), window_ms)
    } else {
        seq![cur] + spec_windows(rest, window_ms)
    }
}

/// Groups a time-ordered event sequence into debounce windows: the first
/// event after an idle period opens a window, every event within `window_ms`
/// of the opening joins it, and the window closes when a later event arrives
/// (or the sequence ends). Each window becomes one batch, in arrival order.
pub open spec fn spec_windows(events: Seq<TimedEvent>, window_ms: u64) -> Seq<Seq<RawEvent>>
    decreases events.len(), 0int,
{
    if events.len() == 0 {
        Seq::empty()
    } else {
        spec_fill(seq![events[0].event], events[0].at_ms, events.drop_first(), window_ms)
    }
}

/// The views of a sequence of collected batches.
pub open spec fn batch_views(batches: Seq<Vec<RawEvent>>) -> Seq<Seq<RawEvent>> {
    batches.map_values(|b: Vec<RawEvent>| b@)
}

/// Coalesces a bursty, time-ordered raw-event sequence into one batch per
/// debounce window, exactly as `spec_windows` states: an arbitrarily large
/// burst inside one window collapses into a single batch, and the fixed
/// window length bounds the extra latency any single event suffers.
pub fn coalesce_windows(events: Vec<TimedEvent>, window_ms: u64) -> (r: Vec<Vec<RawEvent>>)
    requires
        sorted_by_time(events@),
    ensures
        batch_views(r@) == spec_windows(events@, window_ms),
{
    let ghost all = events@;
    let mut r: Vec<Vec<RawEvent>> = Vec::new();
    if events.len() == 0 {
        assert(batch_views(r@) =~= spec_windows(all, window_ms));
        return r;
    }
    let mut cur: Vec<RawEvent> = Vec::new();
    let mut start: u64 = events[0].at_ms;
    cur.push(events[0].event.duplicate());
    let ghost opened: int = 0;
    let mut i: usize = 1;
    proof {
        assert(cur@ =~= seq![all[0].event]);
        assert(all.skip(1) =~= all.drop_first());
        assert(batch_views(r@) + spec_fill(cur@, start, all.skip(1), window_ms)
            =~= spec_fill(cur@, start, all.skip(1), window_ms));
    }
    while i < events.len()
        invariant
            1 <= i <= all.len(),
            events@ == all,
            sorted_by_time(all),
            0 <= opened < i,
            start == all[opened].at_ms,
            spec_windows(all, window_ms) == batch_views(r@) + spec_fill(
                cur@,
                start,
                all.skip(i as int),
                window_ms,
            ),
        decreases events.len() - i,
    {
        proof {
            assert(all.skip(i as int).drop_first() =~= all.skip(i + 1));
            assert(all.skip(i as int)[0] == all[i as int]);
        }
        let t = events[i].at_ms;
        if t - start <= window_ms {
            cur.push(events[i].event.duplicate());
        } else {
            r.push(cur);
            proof {
                assert(batch_views(r@) =~= batch_views(r@.drop_last()).push(r@.last()@));
            }
            cur = Vec::new();
            cur.push(events[i].event.duplicate());
            start = t;
            proof {
                opened = i as int;
                assert(cur@ =~= seq![all[i as int].event]);
                assert(all.skip(i as int).drop_first() =~= all.skip(i + 1));
                assert(batch_views(r@.drop_last()).push(r@.last()@) + spec_windows(
                    all.skip(i as int),
                    window_ms,
                ) =~= batch_views(r@.drop_last()) + (seq![r@.last()@] + spec_windows(
                    all.skip(i as int),
                    window_ms,
                )));
            }
        }
        i = i + 1;
    }
    proof {
        assert(all.skip(all.len() as int) =~= Seq::<TimedEvent>::empty());
    }
    r.push(cur);
    proof {
        assert(batch_views(r@) =~= batch_views(r@.drop_last()).push(r@.last()@));
        assert(batch_views(r@.drop_last()).push(r@.last()@) =~= batch_views(r@.drop_last())
            + seq![r@.last()@]);
    }
    r
}

/// A burst that fits in one window from its first event on yields exactly one
/// batch, holding every raw event of the burst in arrival order.
pub proof fn lemma_fill_all_within(
    cur: Seq<RawEvent>,
    start: u64,
    rest: Seq<TimedEvent>,
    window_ms: u64,
)
    requires
        forall|i: int| 0 <= i < rest.len() ==> #[trigger] rest[i].at_ms - start <= window_ms,
    ensures
        spec_fill(cur, start, rest, window_ms) == seq![cur + raw_of(rest)],
    decreases rest.len(),
{
    if rest.len() == 0 {
        assert(cur + raw_of(rest) =~= cur);
        assert(spec_fill(cur, start, rest, window_ms) =~= seq![cur + raw_of(rest)]);
    } else {
        lemma_fill_all_within(cur.push(rest[0].event), start, rest.drop_first(), window_ms);
        assert(cur.push(rest[0].event) + raw_of(rest.drop_first()) =~= cur + raw_of(rest));
    }
}

/// Debounce coalescing, window half: raw events all arriving within one
/// debounce window of the first produce exactly one batch downstream, and
/// that batch holds every event, order-preserving.
pub proof fn lemma_single_window(events: Seq<TimedEvent>, window_ms: u64)
    requires
        events.len() > 0,
        forall|i: int| 0 <= i < events.len() ==> #[trigger] events[i].at_ms - events[0].at_ms
            <= window_ms,
    ensures
        spec_windows(events, window_ms) == seq![raw_of(events)],
{
    lemma_fill_all_within(
        seq![events[0].event],
        events[0].at_ms,
        events.drop_first(),
        window_ms,
    );
    assert(seq![events[0].event] + raw_of(events.drop_first()) =~= raw_of(events));
}

/// Separates one window's raw events into the batch of changed paths and the
/// list of error causes, both in arrival order. Errors and path changes may be
/// interleaved; each error is extracted for individual reporting, and the
/// remaining path changes form the batch.
pub fn split_batch(events: Vec<RawEvent>) -> (r: (ChangeBatch, Vec<String>))
    ensures
        r.0.paths@ == paths_of(events@),
        r.1@ == errors_of(events@),
{
    let ghost all = events@;
    let mut paths: Vec<String> = Vec::new();
    let mut errors: Vec<String> = Vec::new();
    let mut i: usize = 0;
    proof {
        assert(all.skip(0) =~= all);
        assert(Seq::<String>::empty() + paths_of(all) =~= paths_of(all));
        assert(Seq::<String>::empty() + errors_of(all) =~= errors_of(all));
    }
    while i < events.len()
        invariant
            i <= events.len(),
            events@ == all,
            paths_of(all) == paths@ + paths_of(all.skip(i as int)),
            errors_of(all) == errors@ + errors_of(all.skip(i as int)),
        decreases events.len() - i,
    {
        proof {
            assert(all.skip(i as int).drop_first() =~= all.skip(i + 1));
            assert(all.skip(i as int)[0] == all[i as int]);
        }
        match &events[i] {
            RawEvent::PathChanged(p) => {
                paths.push(p.clone());
                proof {
                    assert(paths@ + paths_of(all.skip(i + 1)) =~= paths@.drop_last() + (seq![
                        all[i as int]->PathChanged_0,
                    ] + paths_of(all.skip(i + 1))));
                }
            },
            RawEvent::WatchError(c) => {
                errors.push(c.clone());
                proof {
                    assert(errors@ + errors_of(all.skip(i + 1)) =~= errors@.drop_last() + (seq![
                        all[i as int]->WatchError_0,
                    ] + errors_of(all.skip(i + 1))));
                }
            },
        }
        i = i + 1;
    }
    proof {
        assert(all.skip(all.len() as int) =~= Seq::<RawEvent>::empty());
        assert(paths@ =~= paths@ + Seq::<String>::empty());
        assert(errors@ =~= errors@ + Seq::<String>::empty());
    }
    (ChangeBatch { paths }, errors)
}

} // verus!
