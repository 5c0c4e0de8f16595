//! A model of the stream as the worker's consumer group sees it, and what
//! the worker guarantees against it: at-least-once delivery, and recovery
//! after a crash.

use crate::worker::{
    start_over, step, turn_to_next, work_item, Cursor, PhaseView, StreamEntryView,
    WorkerActionView, WorkerEventView, WorkerView, BATCH_SIZE,
};
use vstd::prelude::*;

verus! {

/// The model of the stream as one consumer group with one consumer sees it.
pub struct GroupView {
    /// The entries that were handed to the consumer and not acknowledged,
    /// oldest first.
    pub pending: Seq<StreamEntryView>,
    /// The entries that were appended and never handed out, oldest first.
    pub backlog: Seq<StreamEntryView>,
}

/// How often an entry with identifier `id` stands in `entries`.
pub open spec fn occurrences(entries: Seq<StreamEntryView>, id: Seq<char>) -> nat
    decreases entries.len(),
{
    if entries.len() == 0 {
        0
    } else {
        (if entries[0].id == id {
            1nat
        } else {
            0nat
        }) + occurrences(entries.drop_first(), id)
    }
}

/// `entries` without those whose identifier is `id`.
pub open spec fn without(entries: Seq<StreamEntryView>, id: Seq<char>) -> Seq<StreamEntryView>
    decreases entries.len(),
{
    if entries.len() == 0 {
        entries
    } else if entries[0].id == id {
        without(entries.drop_first(), id)
    } else {
        seq![entries[0]] + without(entries.drop_first(), id)
    }
}

/// The stream never assigns one identifier twice.
pub open spec fn unique_ids(group: GroupView) -> bool {
    forall|id: Seq<char>| occurrences(group.pending + group.backlog, id) <= 1
}

/// The first `count` of `entries`, or all of them where there are fewer.
pub open spec fn first(entries: Seq<StreamEntryView>, count: nat) -> Seq<StreamEntryView> {
    if count <= entries.len() {
        entries.take(count as int)
    } else {
        entries
    }
}

/// What a read from the pending cursor returns. It changes nothing.
pub open spec fn replayed(group: GroupView, count: nat) -> Seq<StreamEntryView> {
    first(group.pending, count)
}

/// What a read from the cursor of new entries returns.
pub open spec fn fetched(group: GroupView, count: nat) -> Seq<StreamEntryView> {
    first(group.backlog, count)
}

/// The group after a read from the cursor of new entries: what was handed
/// out is pending.
pub open spec fn after_fetch(group: GroupView, count: nat) -> GroupView {
    GroupView {
        pending: group.pending + fetched(group, count),
        backlog: group.backlog.skip(fetched(group, count).len() as int),
    }
}

/// The group after the entry `id` was acknowledged.
pub open spec fn after_ack(group: GroupView, id: Seq<char>) -> GroupView {
    GroupView { pending: without(group.pending, id), backlog: group.backlog }
}

/// The group after `entry` was appended to the stream.
pub open spec fn after_append(group: GroupView, entry: StreamEntryView) -> GroupView {
    GroupView { pending: group.pending, backlog: group.backlog.push(entry) }
}

/// The group after the surroundings did what `action` says: an
/// acknowledgement takes its entry off the pending list, nothing else
/// changes the group.
pub open spec fn after_action(group: GroupView, action: WorkerActionView) -> GroupView {
    match action {
        WorkerActionView::Acknowledge(id) => after_ack(group, id),
        _ => group,
    }
}

/// The group after the surroundings did what `actions` say, one after
/// another.
pub open spec fn after_actions(group: GroupView, actions: Seq<WorkerActionView>) -> GroupView
    decreases actions.len(),
{
    if actions.len() == 0 {
        group
    } else {
        after_actions(after_action(group, actions[0]), actions.drop_first())
    }
}

/// How far an action is from the end of the cycle, among actions with the
/// same entries left.
pub open spec fn rank(action: WorkerActionView) -> nat {
    match action {
        WorkerActionView::Deliver(_) => 2,
        WorkerActionView::Acknowledge(_) => 1,
        _ => 0,
    }
}

/// The actions of the worker from `action` on, up to the first that is
/// neither a delivery nor an acknowledgement, where `taken` tells of each
/// entry whether the transport takes its mail.
pub open spec fn drained(
    worker: WorkerView,
    action: WorkerActionView,
    taken: spec_fn(Seq<char>) -> bool,
) -> Seq<WorkerActionView>
    decreases worker.queue.len(), rank(action),
{
    match action {
        WorkerActionView::Deliver(item) => {
            let next = step(worker, WorkerEventView::Delivered(taken(item.entry_id)));
            seq![action] + drained(next.0, next.1, taken)
        },
        WorkerActionView::Acknowledge(_) => {
            let next = step(worker, WorkerEventView::Acknowledged);
            seq![action] + drained(next.0, next.1, taken)
        },
        _ => seq![action],
    }
}

/// The worker as it waits for the replay of the pending list.
pub open spec fn replaying() -> WorkerView {
    WorkerView { phase: PhaseView::ReadingPending, queue: Seq::empty() }
}

/// The actions of one cycle of the worker against `group`, from the answer to
/// the replay on: both reads succeed.
pub open spec fn cycle(group: GroupView, taken: spec_fn(Seq<char>) -> bool) -> Seq<
    WorkerActionView,
> {
    let count = BATCH_SIZE as nat;
    let replay = step(replaying(), WorkerEventView::Read(Some(replayed(group, count))));
    let fetch = step(replay.0, WorkerEventView::Read(Some(fetched(group, count))));
    seq![replay.1] + drained(fetch.0, fetch.1, taken)
}

/// Whether `action` is the delivery of the entry with identifier `id`: 1 if
/// so, else 0.
pub open spec fn delivers(action: WorkerActionView, id: Seq<char>) -> nat {
    match action {
        WorkerActionView::Deliver(item) => if item.entry_id == id {
            1
        } else {
            0
        },
        _ => 0,
    }
}

/// Whether `action` is the acknowledgement of the entry with identifier
/// `id`: 1 if so, else 0.
pub open spec fn acknowledges(action: WorkerActionView, id: Seq<char>) -> nat {
    match action {
        WorkerActionView::Acknowledge(entry) => if entry == id {
            1
        } else {
            0
        },
        _ => 0,
    }
}

/// How often `actions` deliver the entry with identifier `id`.
pub open spec fn deliveries(actions: Seq<WorkerActionView>, id: Seq<char>) -> nat
    decreases actions.len(),
{
    if actions.len() == 0 {
        0
    } else {
        delivers(actions[0], id) + deliveries(actions.drop_first(), id)
    }
}

/// How often `actions` acknowledge the entry with identifier `id`.
pub open spec fn acknowledgements(actions: Seq<WorkerActionView>, id: Seq<char>) -> nat
    decreases actions.len(),
{
    if actions.len() == 0 {
        0
    } else {
        acknowledges(actions[0], id) + acknowledgements(actions.drop_first(), id)
    }
}

proof fn counts_of_one_more(action: WorkerActionView, rest: Seq<WorkerActionView>, id: Seq<char>)
    ensures
        deliveries(seq![action] + rest, id) == delivers(action, id) + deliveries(rest, id),
        acknowledgements(seq![action] + rest, id) == acknowledges(action, id) + acknowledgements(
            rest,
            id,
        ),
{
    assert((seq![action] + rest).drop_first() == rest);
}

proof fn occurrences_add(a: Seq<StreamEntryView>, b: Seq<StreamEntryView>, id: Seq<char>)
    ensures
        occurrences(a + b, id) == occurrences(a, id) + occurrences(b, id),
    decreases a.len(),
{
    if a.len() == 0 {
        assert(a + b == b);
    } else {
        assert((a + b).drop_first() == a.drop_first() + b);
        occurrences_add(a.drop_first(), b, id);
    }
}

proof fn occurrences_first(entries: Seq<StreamEntryView>, count: nat, id: Seq<char>)
    ensures
        occurrences(first(entries, count), id) <= occurrences(entries, id),
{
    if count <= entries.len() {
        assert(entries == entries.take(count as int) + entries.skip(count as int));
        occurrences_add(entries.take(count as int), entries.skip(count as int), id);
    }
}

proof fn occurrences_at(entries: Seq<StreamEntryView>, i: int)
    requires
        0 <= i < entries.len(),
    ensures
        occurrences(entries, entries[i].id) >= 1,
    decreases entries.len(),
{
    if i > 0 {
        occurrences_at(entries.drop_first(), i - 1);
    }
}

proof fn occurrences_without(entries: Seq<StreamEntryView>, gone: Seq<char>, id: Seq<char>)
    ensures
        occurrences(without(entries, gone), id) == if id == gone {
            0
        } else {
            occurrences(entries, id)
        },
    decreases entries.len(),
{
    if entries.len() > 0 {
        occurrences_without(entries.drop_first(), gone, id);
        if entries[0].id != gone {
            let rest = without(entries.drop_first(), gone);
            assert((seq![entries[0]] + rest).drop_first() == rest);
        }
    }
}

/// While it drains its queue, the worker tries each entry once, in order.
proof fn drained_delivers_queue(
    queue: Seq<StreamEntryView>,
    taken: spec_fn(Seq<char>) -> bool,
    id: Seq<char>,
)
    ensures
        deliveries(drained(turn_to_next(queue).0, turn_to_next(queue).1, taken), id)
            == occurrences(queue, id),
        acknowledgements(drained(turn_to_next(queue).0, turn_to_next(queue).1, taken), id)
            == if taken(id) {
            occurrences(queue, id)
        } else {
            0
        },
    decreases queue.len(),
{
    let (worker, action) = turn_to_next(queue);
    let actions = drained(worker, action, taken);
    if queue.len() == 0 {
        assert(actions == seq![WorkerActionView::Sleep]);
        counts_of_one_more(WorkerActionView::Sleep, Seq::empty(), id);
        assert(seq![WorkerActionView::Sleep] + Seq::empty() == actions);
    } else {
        let rest = queue.drop_first();
        let entry = queue[0];
        drained_delivers_queue(rest, taken, id);
        let tail = drained(turn_to_next(rest).0, turn_to_next(rest).1, taken);
        let answered = step(worker, WorkerEventView::Delivered(taken(entry.id)));
        let middle = drained(answered.0, answered.1, taken);
        assert(action == WorkerActionView::Deliver(work_item(entry)));
        assert(actions == seq![action] + middle);
        counts_of_one_more(action, middle, id);
        if taken(entry.id) {
            let acked = step(answered.0, WorkerEventView::Acknowledged);
            assert(answered.1 == WorkerActionView::Acknowledge(entry.id));
            assert(acked == turn_to_next(rest));
            assert(middle == seq![answered.1] + tail);
            counts_of_one_more(answered.1, tail, id);
        } else {
            assert(answered == turn_to_next(rest));
            assert(middle == tail);
        }
    }
}

/// Every cycle ends in a rest: when the worker has tried the last entry of
/// its queue, it sleeps before it polls again.
pub proof fn cycle_ends_in_rest(queue: Seq<StreamEntryView>, taken: spec_fn(Seq<char>) -> bool)
    ensures
        drained(turn_to_next(queue).0, turn_to_next(queue).1, taken).last()
            == WorkerActionView::Sleep,
    decreases queue.len(),
{
    let (worker, action) = turn_to_next(queue);
    if queue.len() > 0 {
        let rest = queue.drop_first();
        cycle_ends_in_rest(rest, taken);
        let tail = drained(turn_to_next(rest).0, turn_to_next(rest).1, taken);
        let answered = step(worker, WorkerEventView::Delivered(taken(queue[0].id)));
        let middle = drained(answered.0, answered.1, taken);
        assert(action == WorkerActionView::Deliver(work_item(queue[0])));
        assert(drained(worker, action, taken) == seq![action] + middle);
        if taken(queue[0].id) {
            assert(step(answered.0, WorkerEventView::Acknowledged) == turn_to_next(rest));
            assert(middle == seq![answered.1] + tail);
        } else {
            assert(answered == turn_to_next(rest));
        }
    }
}

/// An entry is acknowledged only in answer to the report that the transport
/// took its mail: never before the delivery, and never after a failed one.
pub proof fn acknowledged_only_after_delivery(
    worker: WorkerView,
    event: WorkerEventView,
    id: Seq<char>,
)
    ensures
        step(worker, event).1 == WorkerActionView::Acknowledge(id) <==> worker.phase
            == PhaseView::Delivering(id) && event == WorkerEventView::Delivered(true),
{
}

/// Every cycle has both reads: the worker reads new entries exactly when the
/// replay of the pending list is over, whether or not the replay succeeded,
/// and it replays the pending list first thing after it made sure of the
/// group and first thing after each rest.
pub proof fn both_reads_every_cycle(worker: WorkerView, event: WorkerEventView)
    ensures
        step(worker, event).1 == WorkerActionView::Read(Cursor::New) <==> worker.phase
            == PhaseView::ReadingPending && event is Read,
        step(worker, event).1 == WorkerActionView::Read(Cursor::Pending) <==> (worker.phase
            == PhaseView::EnsuringGroup && event == WorkerEventView::GroupEnsured) || (
        worker.phase == PhaseView::Sleeping && event == WorkerEventView::Woke),
{
}

/// A worker that boots makes sure of the group and then replays the pending
/// list, before it reads anything new.
pub proof fn boot_begins_with_the_replay()
    ensures
        step(WorkerView { phase: PhaseView::Idle, queue: Seq::empty() }, WorkerEventView::Started)
            == start_over(),
        step(start_over().0, WorkerEventView::GroupEnsured) == (
            replaying(),
            WorkerActionView::Read(Cursor::Pending),
        ),
{
}

/// A failure does not stop the worker: after a failed delivery it turns to
/// the next entry without an acknowledgement, and after a failed read it
/// goes on as after a read that brought nothing.
pub proof fn failures_do_not_stop_the_worker(worker: WorkerView, id: Seq<char>)
    ensures
        worker.phase == PhaseView::Delivering(id) ==> step(
            worker,
            WorkerEventView::Delivered(false),
        ) == turn_to_next(worker.queue),
        step(worker, WorkerEventView::Read(None)) == step(
            worker,
            WorkerEventView::Read(Some(Seq::empty())),
        ),
{
}

/// In one cycle the worker tries each entry that the two reads brought, the
/// replayed ones first, once for each time that it was handed out, and it
/// acknowledges exactly those whose mail the transport took.
pub proof fn cycle_delivers_what_was_read(
    group: GroupView,
    taken: spec_fn(Seq<char>) -> bool,
    id: Seq<char>,
)
    ensures
        cycle(group, taken)[0] == WorkerActionView::Read(Cursor::New),
        deliveries(cycle(group, taken), id) == occurrences(
            replayed(group, BATCH_SIZE as nat) + fetched(group, BATCH_SIZE as nat),
            id,
        ),
        acknowledgements(cycle(group, taken), id) == if taken(id) {
            deliveries(cycle(group, taken), id)
        } else {
            0
        },
{
    let count = BATCH_SIZE as nat;
    let queue = replayed(group, count) + fetched(group, count);
    let replay = step(replaying(), WorkerEventView::Read(Some(replayed(group, count))));
    let fetch = step(replay.0, WorkerEventView::Read(Some(fetched(group, count))));
    assert(fetch == turn_to_next(queue));
    drained_delivers_queue(queue, taken, id);
    counts_of_one_more(replay.1, drained(fetch.0, fetch.1, taken), id);
}

proof fn pending_after_actions(group: GroupView, actions: Seq<WorkerActionView>, id: Seq<char>)
    ensures
        after_actions(group, actions).backlog == group.backlog,
        occurrences(after_actions(group, actions).pending, id) == if acknowledgements(
            actions,
            id,
        ) > 0 {
            0
        } else {
            occurrences(group.pending, id)
        },
    decreases actions.len(),
{
    if actions.len() > 0 {
        let next = after_action(group, actions[0]);
        pending_after_actions(next, actions.drop_first(), id);
        match actions[0] {
            WorkerActionView::Acknowledge(gone) => {
                occurrences_without(group.pending, gone, id);
            },
            _ => {},
        }
    }
}

/// Nothing is dropped in silence. After one cycle of the worker the pending
/// list holds what it held and what the cycle fetched, but for the entries
/// that the worker tried and whose mail the transport took: an entry whose
/// delivery failed, or that no read of the cycle brought, stays pending for
/// the next replay.
pub proof fn cycle_leaves_undelivered_entries_pending(
    group: GroupView,
    taken: spec_fn(Seq<char>) -> bool,
    id: Seq<char>,
)
    ensures
        ({
            let count = BATCH_SIZE as nat;
            let read = replayed(group, count) + fetched(group, count);
            let then = after_actions(after_fetch(group, count), cycle(group, taken));
            &&& then.backlog == after_fetch(group, count).backlog
            &&& occurrences(then.pending, id) == if taken(id) && occurrences(read, id) > 0 {
                0
            } else {
                occurrences(group.pending + fetched(group, count), id)
            }
        }),
{
    let count = BATCH_SIZE as nat;
    cycle_delivers_what_was_read(group, taken, id);
    pending_after_actions(after_fetch(group, count), cycle(group, taken), id);
}

/// An entry that is appended is delivered by the next cycle, once, if
/// fewer entries wait before it than one read returns. The stream gave the
/// entry an identifier that no other entry has.
pub proof fn appended_entry_is_delivered(
    group: GroupView,
    entry: StreamEntryView,
    taken: spec_fn(Seq<char>) -> bool,
)
    requires
        occurrences(group.pending + group.backlog, entry.id) == 0,
        group.backlog.len() < BATCH_SIZE,
    ensures
        deliveries(cycle(after_append(group, entry), taken), entry.id) == 1,
        acknowledgements(cycle(after_append(group, entry), taken), entry.id) == if taken(
            entry.id,
        ) {
            1nat
        } else {
            0nat
        },
{
    let count = BATCH_SIZE as nat;
    let then = after_append(group, entry);
    cycle_delivers_what_was_read(then, taken, entry.id);
    occurrences_add(replayed(then, count), fetched(then, count), entry.id);
    occurrences_add(group.pending, group.backlog, entry.id);
    occurrences_first(group.pending, count, entry.id);
    let one = seq![entry];
    assert(then.backlog =~= group.backlog + one);
    assert(fetched(then, count) =~= group.backlog + one);
    occurrences_add(group.backlog, one, entry.id);
    assert(one[0].id == entry.id);
    assert(one.drop_first().len() == 0);
    assert(occurrences(one.drop_first(), entry.id) == 0);
    assert(occurrences(one, entry.id) == 1);
    assert(occurrences(replayed(then, count), entry.id) == 0);
    assert(occurrences(group.backlog, entry.id) == 0);
}

/// Recovery from a crash. The worker was handed `first` and `second`,
/// acknowledged `first` and went down before it acknowledged `second`. The
/// cycle after the restart then delivers `second` exactly once and `first`
/// not at all, provided that `second` is among the entries that one replay
/// returns.
pub proof fn restart_redelivers_unacknowledged(
    group: GroupView,
    first: StreamEntryView,
    second: StreamEntryView,
    taken: spec_fn(Seq<char>) -> bool,
)
    requires
        unique_ids(group),
        group.pending.contains(first),
        first.id != second.id,
        replayed(after_ack(group, first.id), BATCH_SIZE as nat).contains(second),
    ensures
        deliveries(cycle(after_ack(group, first.id), taken), second.id) == 1,
        deliveries(cycle(after_ack(group, first.id), taken), first.id) == 0,
{
    let count = BATCH_SIZE as nat;
    let left = after_ack(group, first.id);
    let replay = replayed(left, count);
    let fresh = fetched(left, count);
    cycle_delivers_what_was_read(left, taken, first.id);
    cycle_delivers_what_was_read(left, taken, second.id);
    occurrences_add(replay, fresh, first.id);
    occurrences_add(replay, fresh, second.id);
    occurrences_add(group.pending, group.backlog, first.id);
    occurrences_add(group.pending, group.backlog, second.id);
    occurrences_first(left.pending, count, first.id);
    occurrences_first(left.pending, count, second.id);
    occurrences_first(left.backlog, count, first.id);
    occurrences_first(left.backlog, count, second.id);
    occurrences_without(group.pending, first.id, first.id);
    occurrences_without(group.pending, first.id, second.id);
    let i = choose|i: int| 0 <= i < group.pending.len() && group.pending[i] == first;
    occurrences_at(group.pending, i);
    let j = choose|j: int| 0 <= j < replay.len() && replay[j] == second;
    occurrences_at(replay, j);
}

} // verus!
