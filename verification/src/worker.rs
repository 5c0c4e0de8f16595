//! The worker that delivers invitations from the stream, as a machine
//! that its surroundings drive.

use vstd::prelude::*;

verus! {

/// The stream that carries the invitations to be mailed.
pub const INVITATIONS_STREAM_NAME: &'static str = "invitations_stream";

/// The consumer group under which the worker reads the stream.
pub const GROUP_NAME: &'static str = "invitations_group";

/// The one consumer of the group.
pub const CONSUMER_NAME: &'static str = "consumer-1";

/// Where a group that is created starts: at the tail of the stream, so that
/// entries older than the worker's first boot are not replayed.
pub const GROUP_START: &'static str = "$";

/// The most entries that one read returns.
pub const BATCH_SIZE: usize = 10;

/// Seconds for which the worker rests between two polls.
pub const POLL_INTERVAL: u64 = 15;

/// One field of a stream entry.
#[derive(Debug, Clone, PartialEq, Eq)]
pub struct Field {
    pub name: String,
    pub value: String,
}

/// The model of a [`Field`].
pub struct FieldView {
    pub name: Seq<char>,
    pub value: Seq<char>,
}

impl View for Field {
    type V = FieldView;

    open spec fn view(&self) -> FieldView {
        FieldView { name: self.name@, value: self.value@ }
    }
}

/// One entry as the stream hands it out: the identifier that the stream
/// assigned, and the fields whose values are text.
#[derive(Debug, Clone, PartialEq, Eq)]
pub struct StreamEntry {
    pub id: String,
    pub fields: Vec<Field>,
}

/// The model of a [`StreamEntry`].
pub struct StreamEntryView {
    pub id: Seq<char>,
    pub fields: Seq<FieldView>,
}

impl View for StreamEntry {
    type V = StreamEntryView;

    open spec fn view(&self) -> StreamEntryView {
        StreamEntryView { id: self.id@, fields: self.fields@.map_values(|f: Field| f@) }
    }
}

/// The models of a list of entries, in order.
pub open spec fn entry_views(list: Seq<StreamEntry>) -> Seq<StreamEntryView> {
    list.map_values(|e: StreamEntry| e@)
}

/// An invitation that waits to be mailed.
#[derive(Debug, Clone, PartialEq, Eq)]
pub struct WorkItem {
    /// The identifier of the stream entry, by which it is acknowledged.
    pub entry_id: String,
    /// The identifier of the invitation.
    pub id: String,
    /// The address that is invited.
    pub receiver: String,
    pub sender_first_name: String,
    pub sender_last_name: String,
}

/// The model of a [`WorkItem`].
pub struct WorkItemView {
    pub entry_id: Seq<char>,
    pub id: Seq<char>,
    pub receiver: Seq<char>,
    pub sender_first_name: Seq<char>,
    pub sender_last_name: Seq<char>,
}

impl View for WorkItem {
    type V = WorkItemView;

    open spec fn view(&self) -> WorkItemView {
        WorkItemView {
            entry_id: self.entry_id@,
            id: self.id@,
            receiver: self.receiver@,
            sender_first_name: self.sender_first_name@,
            sender_last_name: self.sender_last_name@,
        }
    }
}

/// The value of the last field called `name`, or the empty text where no
/// field has that name.
pub open spec fn field_value(fields: Seq<FieldView>, name: Seq<char>) -> Seq<char>
    decreases fields.len(),
{
    if fields.len() == 0 {
        Seq::empty()
    } else if fields.last().name == name {
        fields.last().value
    } else {
        field_value(fields.drop_last(), name)
    }
}

/// The invitation that a stream entry describes. Fields that are missing
/// read as empty, fields of other names are passed over.
pub open spec fn work_item(entry: StreamEntryView) -> WorkItemView {
    WorkItemView {
        entry_id: entry.id,
        id: field_value(entry.fields, "id"@),
        receiver: field_value(entry.fields, "receiver"@),
        sender_first_name: field_value(entry.fields, "sender_first_name"@),
        sender_last_name: field_value(entry.fields, "sender_last_name"@),
    }
}

/// The four field names of an entry are four different texts.
pub proof fn field_names_differ()
    ensures
        "id"@ != "receiver"@,
        "id"@ != "sender_first_name"@,
        "id"@ != "sender_last_name"@,
        "receiver"@ != "sender_first_name"@,
        "receiver"@ != "sender_last_name"@,
        "sender_first_name"@ != "sender_last_name"@,
{
    reveal_strlit("id");
    reveal_strlit("receiver");
    reveal_strlit("sender_first_name");
    reveal_strlit("sender_last_name");
    assert("receiver"@.len() == 8);
    assert("sender_first_name"@.len() == 17);
    assert("sender_last_name"@.len() == 16);
}

impl WorkItem {
    /// Reads the invitation that a stream entry describes.
    pub fn from_entry(entry: &StreamEntry) -> (item: WorkItem)
        ensures
            item@ == work_item(entry@),
    {
        let id_key = String::from_str("id");
        let receiver_key = String::from_str("receiver");
        let first_key = String::from_str("sender_first_name");
        let last_key = String::from_str("sender_last_name");
        let mut id = String::new();
        let mut receiver = String::new();
        let mut sender_first_name = String::new();
        let mut sender_last_name = String::new();
        let ghost fields = entry@.fields;
        proof {
            field_names_differ();
        }
        let mut i: usize = 0;
        while i < entry.fields.len()
            invariant
                i <= entry.fields.len(),
                fields == entry@.fields,
                fields.len() == entry.fields.len(),
                id_key@ == "id"@,
                receiver_key@ == "receiver"@,
                first_key@ == "sender_first_name"@,
                last_key@ == "sender_last_name"@,
                id@ == field_value(fields.take(i as int), "id"@),
                receiver@ == field_value(fields.take(i as int), "receiver"@),
                sender_first_name@ == field_value(fields.take(i as int), "sender_first_name"@),
                sender_last_name@ == field_value(fields.take(i as int), "sender_last_name"@),
                "id"@ != "receiver"@,
                "id"@ != "sender_first_name"@,
                "id"@ != "sender_last_name"@,
                "receiver"@ != "sender_first_name"@,
                "receiver"@ != "sender_last_name"@,
                "sender_first_name"@ != "sender_last_name"@,
            decreases entry.fields.len() - i,
        {
            let field = &entry.fields[i];
            proof {
                let next = fields.take(i + 1);
                assert(next.drop_last() == fields.take(i as int));
            }
            if field.name == id_key {
                id = field.value.clone();
            } else if field.name == receiver_key {
                receiver = field.value.clone();
            } else if field.name == first_key {
                sender_first_name = field.value.clone();
            } else if field.name == last_key {
                sender_last_name = field.value.clone();
            }
            i += 1;
        }
        assert(fields.take(entry.fields.len() as int) == fields);
        WorkItem { entry_id: entry.id.clone(), id, receiver, sender_first_name, sender_last_name }
    }
}

/// The two cursors from which the worker reads.
#[derive(Clone, Copy, Debug, PartialEq, Eq, Structural)]
pub enum Cursor {
    /// The entries that were handed to this consumer and never acknowledged.
    Pending,
    /// The entries that were never handed to any consumer of the group.
    New,
}

/// The identifier that selects a cursor in a grouped read.
pub open spec fn cursor_id(cursor: Cursor) -> Seq<char> {
    match cursor {
        Cursor::Pending => "0"@,
        Cursor::New => ">"@,
    }
}

impl Cursor {
    /// The identifier that selects this cursor in a grouped read.
    pub fn id(&self) -> (id: &'static str)
        ensures
            id@ == cursor_id(*self),
    {
        match self {
            Cursor::Pending => "0",
            Cursor::New => ">",
        }
    }
}

/// What the worker asks its surroundings to do next.
#[derive(Debug, Clone, PartialEq, Eq)]
pub enum WorkerAction {
    /// Create the consumer group at the tail of the stream, and the stream
    /// with it if need be. That the group exists already is no failure.
    EnsureGroup,
    /// Read at most `BATCH_SIZE` entries from the cursor, as the one consumer
    /// of the group.
    Read(Cursor),
    /// Render the invitation and hand it to the mail transport.
    Deliver(WorkItem),
    /// Acknowledge the entry with this identifier.
    Acknowledge(String),
    /// Rest for `POLL_INTERVAL` seconds.
    Sleep,
}

/// The model of a [`WorkerAction`].
pub enum WorkerActionView {
    EnsureGroup,
    Read(Cursor),
    Deliver(WorkItemView),
    Acknowledge(Seq<char>),
    Sleep,
}

impl View for WorkerAction {
    type V = WorkerActionView;

    open spec fn view(&self) -> WorkerActionView {
        match self {
            WorkerAction::EnsureGroup => WorkerActionView::EnsureGroup,
            WorkerAction::Read(cursor) => WorkerActionView::Read(*cursor),
            WorkerAction::Deliver(item) => WorkerActionView::Deliver(item@),
            WorkerAction::Acknowledge(id) => WorkerActionView::Acknowledge(id@),
            WorkerAction::Sleep => WorkerActionView::Sleep,
        }
    }
}

/// What the surroundings report back to the worker.
#[derive(Debug, Clone, PartialEq, Eq)]
pub enum WorkerEvent {
    /// The process has started.
    Started,
    /// The attempt to create the group is over, however it ended.
    GroupEnsured,
    /// A read is over: it returned these entries, or it failed.
    Read(Option<Vec<StreamEntry>>),
    /// A delivery is over: the transport took the mail, or it did not.
    Delivered(bool),
    /// The attempt to acknowledge is over, however it ended.
    Acknowledged,
    /// The rest is over.
    Woke,
}

/// The model of a [`WorkerEvent`].
pub enum WorkerEventView {
    Started,
    GroupEnsured,
    Read(Option<Seq<StreamEntryView>>),
    Delivered(bool),
    Acknowledged,
    Woke,
}

impl View for WorkerEvent {
    type V = WorkerEventView;

    open spec fn view(&self) -> WorkerEventView {
        match self {
            WorkerEvent::Started => WorkerEventView::Started,
            WorkerEvent::GroupEnsured => WorkerEventView::GroupEnsured,
            WorkerEvent::Read(Some(entries)) => WorkerEventView::Read(Some(entry_views(entries@))),
            WorkerEvent::Read(None) => WorkerEventView::Read(None),
            WorkerEvent::Delivered(ok) => WorkerEventView::Delivered(*ok),
            WorkerEvent::Acknowledged => WorkerEventView::Acknowledged,
            WorkerEvent::Woke => WorkerEventView::Woke,
        }
    }
}

/// What the worker waits for.
#[derive(Debug, Clone, PartialEq, Eq)]
pub enum Phase {
    /// Nothing yet: the worker has not started.
    Idle,
    /// The creation of the group.
    EnsuringGroup,
    /// The replay of the pending list.
    ReadingPending,
    /// The read of new entries.
    ReadingNew,
    /// The delivery of the entry with this identifier.
    Delivering(String),
    /// The acknowledgement of an entry.
    Acknowledging,
    /// The end of the rest.
    Sleeping,
}

/// The model of a [`Phase`].
pub enum PhaseView {
    Idle,
    EnsuringGroup,
    ReadingPending,
    ReadingNew,
    Delivering(Seq<char>),
    Acknowledging,
    Sleeping,
}

impl View for Phase {
    type V = PhaseView;

    open spec fn view(&self) -> PhaseView {
        match self {
            Phase::Idle => PhaseView::Idle,
            Phase::EnsuringGroup => PhaseView::EnsuringGroup,
            Phase::ReadingPending => PhaseView::ReadingPending,
            Phase::ReadingNew => PhaseView::ReadingNew,
            Phase::Delivering(id) => PhaseView::Delivering(id@),
            Phase::Acknowledging => PhaseView::Acknowledging,
            Phase::Sleeping => PhaseView::Sleeping,
        }
    }
}

/// The worker between two steps: what it waits for, and the entries of the
/// current cycle that it has not yet tried to deliver, oldest first.
#[derive(Debug, Clone, PartialEq, Eq)]
pub struct Worker {
    pub phase: Phase,
    pub queue: Vec<StreamEntry>,
}

/// The model of a [`Worker`].
pub struct WorkerView {
    pub phase: PhaseView,
    pub queue: Seq<StreamEntryView>,
}

impl View for Worker {
    type V = WorkerView;

    open spec fn view(&self) -> WorkerView {
        WorkerView { phase: self.phase@, queue: entry_views(self.queue@) }
    }
}

/// The entries that a read brought: none where it failed.
pub open spec fn entries_read(reply: Option<Seq<StreamEntryView>>) -> Seq<StreamEntryView> {
    match reply {
        Some(entries) => entries,
        None => Seq::empty(),
    }
}

/// The worker turns to the next entry of the cycle, or rests when none is
/// left.
pub open spec fn turn_to_next(queue: Seq<StreamEntryView>) -> (WorkerView, WorkerActionView) {
    if queue.len() == 0 {
        (WorkerView { phase: PhaseView::Sleeping, queue }, WorkerActionView::Sleep)
    } else {
        (
            WorkerView { phase: PhaseView::Delivering(queue[0].id), queue: queue.drop_first() },
            WorkerActionView::Deliver(work_item(queue[0])),
        )
    }
}

/// The worker starts over: it drops what it held and makes sure of the
/// group. Entries that it had read and not acknowledged stay pending in the
/// stream and come back with the next replay.
pub open spec fn start_over() -> (WorkerView, WorkerActionView) {
    (
        WorkerView { phase: PhaseView::EnsuringGroup, queue: Seq::empty() },
        WorkerActionView::EnsureGroup,
    )
}

/// One step of the worker: the state after `event`, and what to do next.
///
/// Every cycle replays the pending list and then reads new entries, whether
/// or not the replay succeeded. The entries of both reads are tried in that
/// order. An entry is acknowledged only after the transport took its mail; a
/// failed delivery leaves it pending. A failed read brings no entries and
/// does not stop the worker. An event that the worker does not wait for
/// makes it start over.
pub open spec fn step(worker: WorkerView, event: WorkerEventView) -> (WorkerView, WorkerActionView) {
    match (worker.phase, event) {
        (PhaseView::Idle, WorkerEventView::Started) => start_over(),
        (PhaseView::EnsuringGroup, WorkerEventView::GroupEnsured) => (
            WorkerView { phase: PhaseView::ReadingPending, queue: Seq::empty() },
            WorkerActionView::Read(Cursor::Pending),
        ),
        (PhaseView::ReadingPending, WorkerEventView::Read(reply)) => (
            WorkerView { phase: PhaseView::ReadingNew, queue: entries_read(reply) },
            WorkerActionView::Read(Cursor::New),
        ),
        (PhaseView::ReadingNew, WorkerEventView::Read(reply)) => turn_to_next(
            worker.queue + entries_read(reply),
        ),
        (PhaseView::Delivering(id), WorkerEventView::Delivered(true)) => (
            WorkerView { phase: PhaseView::Acknowledging, queue: worker.queue },
            WorkerActionView::Acknowledge(id),
        ),
        (PhaseView::Delivering(_), WorkerEventView::Delivered(false)) => turn_to_next(
            worker.queue,
        ),
        (PhaseView::Acknowledging, WorkerEventView::Acknowledged) => turn_to_next(worker.queue),
        (PhaseView::Sleeping, WorkerEventView::Woke) => (
            WorkerView { phase: PhaseView::ReadingPending, queue: Seq::empty() },
            WorkerActionView::Read(Cursor::Pending),
        ),
        _ => start_over(),
    }
}

impl Worker {
    /// The worker before its first step.
    pub fn new() -> (worker: Worker)
        ensures
            worker@ == (WorkerView { phase: PhaseView::Idle, queue: Seq::empty() }),
    {
        let worker = Worker { phase: Phase::Idle, queue: Vec::new() };
        assert(worker@.queue =~= Seq::empty());
        worker
    }
}

fn next_entry(queue: Vec<StreamEntry>) -> (next: (Worker, WorkerAction))
    ensures
        (next.0@, next.1@) == turn_to_next(entry_views(queue@)),
{
    let mut queue = queue;
    let ghost before = queue@;
    if queue.len() == 0 {
        (Worker { phase: Phase::Sleeping, queue }, WorkerAction::Sleep)
    } else {
        let entry = queue.remove(0);
        let item = WorkItem::from_entry(&entry);
        assert(entry_views(queue@) =~= entry_views(before).drop_first());
        (Worker { phase: Phase::Delivering(entry.id), queue }, WorkerAction::Deliver(item))
    }
}

fn restart() -> (next: (Worker, WorkerAction))
    ensures
        (next.0@, next.1@) == start_over(),
{
    let worker = Worker { phase: Phase::EnsuringGroup, queue: Vec::new() };
    assert(worker@.queue =~= Seq::empty());
    (worker, WorkerAction::EnsureGroup)
}

fn replay_next() -> (next: (Worker, WorkerAction))
    ensures
        next.0@ == (WorkerView { phase: PhaseView::ReadingPending, queue: Seq::empty() }),
        next.1@ == WorkerActionView::Read(Cursor::Pending),
{
    let worker = Worker { phase: Phase::ReadingPending, queue: Vec::new() };
    assert(worker@.queue =~= Seq::empty());
    (worker, WorkerAction::Read(Cursor::Pending))
}

fn entries_of(reply: Option<Vec<StreamEntry>>) -> (entries: Vec<StreamEntry>)
    ensures
        entry_views(entries@) == entries_read(
            match reply {
                Some(list) => Some(entry_views(list@)),
                None => None,
            },
        ),
{
    match reply {
        Some(list) => list,
        None => {
            let list: Vec<StreamEntry> = Vec::new();
            list
        },
    }
}

/// Takes the worker one step further: folds `event` into its state and says
/// what its surroundings are to do next. The surroundings perform that and
/// come back with the event that reports it; the worker itself never ends.
pub fn invitation_worker(worker: Worker, event: WorkerEvent) -> (next: (Worker, WorkerAction))
    ensures
        (next.0@, next.1@) == step(worker@, event@),
{
    let Worker { phase, queue } = worker;
    match (phase, event) {
        (Phase::Idle, WorkerEvent::Started) => restart(),
        (Phase::EnsuringGroup, WorkerEvent::GroupEnsured) => replay_next(),
        (Phase::ReadingPending, WorkerEvent::Read(reply)) => {
            let entries = entries_of(reply);
            (Worker { phase: Phase::ReadingNew, queue: entries }, WorkerAction::Read(Cursor::New))
        },
        (Phase::ReadingNew, WorkerEvent::Read(reply)) => {
            let mut queue = queue;
            let mut entries = entries_of(reply);
            let ghost first = queue@;
            let ghost second = entries@;
            queue.append(&mut entries);
            assert(entry_views(queue@) =~= entry_views(first) + entry_views(second));
            next_entry(queue)
        },
        (Phase::Delivering(id), WorkerEvent::Delivered(true)) => (
            Worker { phase: Phase::Acknowledging, queue },
            WorkerAction::Acknowledge(id),
        ),
        (Phase::Delivering(_), WorkerEvent::Delivered(false)) => next_entry(queue),
        (Phase::Acknowledging, WorkerEvent::Acknowledged) => next_entry(queue),
        (Phase::Sleeping, WorkerEvent::Woke) => replay_next(),
        _ => restart(),
    }
}

} // verus!
