use hits_core::smtp::Notification;
use hits_core::worker::{
    invitation_worker, Cursor, Field, Phase, StreamEntry, WorkItem, Worker, WorkerAction,
    WorkerEvent, BATCH_SIZE, CONSUMER_NAME, GROUP_NAME, GROUP_START, INVITATIONS_STREAM_NAME,
    POLL_INTERVAL,
};

fn field(name: &str, value: &str) -> Field {
    Field { name: name.to_string(), value: value.to_string() }
}

fn entry(id: &str, invitation: &str) -> StreamEntry {
    StreamEntry {
        id: id.to_string(),
        fields: vec![
            field("id", invitation),
            field("receiver", "a@x.com"),
            field("sender_first_name", "Ada"),
            field("sender_last_name", "Lovelace"),
        ],
    }
}

fn item(id: &str, invitation: &str) -> WorkItem {
    WorkItem {
        entry_id: id.to_string(),
        id: invitation.to_string(),
        receiver: "a@x.com".to_string(),
        sender_first_name: "Ada".to_string(),
        sender_last_name: "Lovelace".to_string(),
    }
}

/// A stream with one consumer group, as the worker sees it.
struct Group {
    pending: Vec<StreamEntry>,
    backlog: Vec<StreamEntry>,
    acknowledged: Vec<String>,
}

impl Group {
    fn read(&mut self, cursor: Cursor) -> Vec<StreamEntry> {
        match cursor {
            Cursor::Pending => self.pending.iter().take(BATCH_SIZE).cloned().collect(),
            Cursor::New => {
                let count = self.backlog.len().min(BATCH_SIZE);
                let fresh: Vec<StreamEntry> = self.backlog.drain(..count).collect();
                self.pending.extend(fresh.iter().cloned());
                fresh
            }
        }
    }

    fn acknowledge(&mut self, id: &str) {
        self.pending.retain(|entry| entry.id != id);
        self.acknowledged.push(id.to_string());
    }
}

/// Runs a freshly booted worker against the group until it rests, or until
/// it is about to acknowledge `crash_before`. Returns the entries that it
/// tried to deliver.
fn run(group: &mut Group, taken: &dyn Fn(&str) -> bool, crash_before: Option<&str>) -> Vec<String> {
    let mut delivered = Vec::new();
    let (mut worker, mut action) = invitation_worker(Worker::new(), WorkerEvent::Started);
    loop {
        let event = match action {
            WorkerAction::EnsureGroup => WorkerEvent::GroupEnsured,
            WorkerAction::Read(cursor) => WorkerEvent::Read(Some(group.read(cursor))),
            WorkerAction::Deliver(item) => {
                delivered.push(item.entry_id.clone());
                WorkerEvent::Delivered(taken(&item.entry_id))
            }
            WorkerAction::Acknowledge(id) => {
                if crash_before == Some(id.as_str()) {
                    return delivered;
                }
                group.acknowledge(&id);
                WorkerEvent::Acknowledged
            }
            WorkerAction::Sleep => return delivered,
        };
        let next = invitation_worker(worker, event);
        worker = next.0;
        action = next.1;
    }
}

#[test]
fn names_of_the_stream_and_its_group() {
    assert_eq!(INVITATIONS_STREAM_NAME, "invitations_stream");
    assert_eq!(GROUP_NAME, "invitations_group");
    assert_eq!(CONSUMER_NAME, "consumer-1");
    assert_eq!(GROUP_START, "$");
    assert_eq!(BATCH_SIZE, 10);
    assert_eq!(POLL_INTERVAL, 15);
    assert_eq!(Cursor::Pending.id(), "0");
    assert_eq!(Cursor::New.id(), ">");
}

#[test]
fn entry_fields_are_read_by_name() {
    let entry = StreamEntry {
        id: "5-1".to_string(),
        fields: vec![
            field("sender_last_name", "Lovelace"),
            field("other", "ignored"),
            field("id", "inv-1"),
            field("receiver", "a@x.com"),
        ],
    };
    assert_eq!(
        WorkItem::from_entry(&entry),
        WorkItem {
            entry_id: "5-1".to_string(),
            id: "inv-1".to_string(),
            receiver: "a@x.com".to_string(),
            sender_first_name: String::new(),
            sender_last_name: "Lovelace".to_string(),
        }
    );
}

#[test]
fn entry_without_fields_reads_as_empty_item() {
    let entry = StreamEntry { id: "5-1".to_string(), fields: vec![] };
    assert_eq!(
        WorkItem::from_entry(&entry),
        WorkItem {
            entry_id: "5-1".to_string(),
            id: String::new(),
            receiver: String::new(),
            sender_first_name: String::new(),
            sender_last_name: String::new(),
        }
    );
}

#[test]
fn later_field_of_the_same_name_wins() {
    let entry = StreamEntry {
        id: "1-0".to_string(),
        fields: vec![field("id", "first"), field("id", "second")],
    };
    assert_eq!(WorkItem::from_entry(&entry).id, "second");
}

#[test]
fn worker_boots_by_ensuring_the_group_then_replays_then_reads_new() {
    let (worker, action) = invitation_worker(Worker::new(), WorkerEvent::Started);
    assert_eq!(action, WorkerAction::EnsureGroup);
    let (worker, action) = invitation_worker(worker, WorkerEvent::GroupEnsured);
    assert_eq!(action, WorkerAction::Read(Cursor::Pending));
    let (worker, action) = invitation_worker(worker, WorkerEvent::Read(Some(vec![])));
    assert_eq!(action, WorkerAction::Read(Cursor::New));
    let (worker, action) = invitation_worker(worker, WorkerEvent::Read(Some(vec![])));
    assert_eq!(action, WorkerAction::Sleep);
    let (worker, action) = invitation_worker(worker, WorkerEvent::Woke);
    assert_eq!(action, WorkerAction::Read(Cursor::Pending));
    assert_eq!(worker, Worker { phase: Phase::ReadingPending, queue: vec![] });
}

#[test]
fn failed_replay_is_still_followed_by_the_read_of_new_entries() {
    let worker = Worker { phase: Phase::ReadingPending, queue: vec![] };
    let (worker, action) = invitation_worker(worker, WorkerEvent::Read(None));
    assert_eq!(action, WorkerAction::Read(Cursor::New));
    let (worker, action) = invitation_worker(worker, WorkerEvent::Read(None));
    assert_eq!(action, WorkerAction::Sleep);
    assert_eq!(worker, Worker { phase: Phase::Sleeping, queue: vec![] });
}

#[test]
fn replayed_entries_are_tried_before_new_ones() {
    let worker = Worker { phase: Phase::ReadingPending, queue: vec![] };
    let (worker, _) = invitation_worker(worker, WorkerEvent::Read(Some(vec![entry("1-0", "a")])));
    let (worker, action) =
        invitation_worker(worker, WorkerEvent::Read(Some(vec![entry("2-0", "b")])));
    assert_eq!(action, WorkerAction::Deliver(item("1-0", "a")));
    assert_eq!(
        worker,
        Worker { phase: Phase::Delivering("1-0".to_string()), queue: vec![entry("2-0", "b")] }
    );
}

#[test]
fn entry_is_acknowledged_after_successful_delivery() {
    let worker = Worker { phase: Phase::Delivering("1-0".to_string()), queue: vec![] };
    let (worker, action) = invitation_worker(worker, WorkerEvent::Delivered(true));
    assert_eq!(action, WorkerAction::Acknowledge("1-0".to_string()));
    let (_, action) = invitation_worker(worker, WorkerEvent::Acknowledged);
    assert_eq!(action, WorkerAction::Sleep);
}

#[test]
fn failed_delivery_is_not_acknowledged_and_the_worker_goes_on() {
    let worker =
        Worker { phase: Phase::Delivering("1-0".to_string()), queue: vec![entry("2-0", "b")] };
    let (worker, action) = invitation_worker(worker, WorkerEvent::Delivered(false));
    assert_eq!(action, WorkerAction::Deliver(item("2-0", "b")));
    assert_eq!(worker, Worker { phase: Phase::Delivering("2-0".to_string()), queue: vec![] });
}

#[test]
fn unexpected_event_makes_the_worker_start_over() {
    let worker =
        Worker { phase: Phase::Delivering("1-0".to_string()), queue: vec![entry("2-0", "b")] };
    let (worker, action) = invitation_worker(worker, WorkerEvent::Woke);
    assert_eq!(action, WorkerAction::EnsureGroup);
    assert_eq!(worker, Worker { phase: Phase::EnsuringGroup, queue: vec![] });
    let (_, action) = invitation_worker(Worker::new(), WorkerEvent::Acknowledged);
    assert_eq!(action, WorkerAction::EnsureGroup);
}

#[test]
fn restart_redelivers_the_unacknowledged_entry_once_and_not_the_acknowledged_one() {
    let mut group = Group {
        pending: vec![],
        backlog: vec![entry("1-0", "a"), entry("2-0", "b")],
        acknowledged: vec![],
    };
    let before_crash = run(&mut group, &|_| true, Some("2-0"));
    assert_eq!(before_crash, vec!["1-0".to_string(), "2-0".to_string()]);
    assert_eq!(group.acknowledged, vec!["1-0".to_string()]);
    let after_restart = run(&mut group, &|_| true, None);
    assert_eq!(after_restart, vec!["2-0".to_string()]);
    assert_eq!(group.acknowledged, vec!["1-0".to_string(), "2-0".to_string()]);
    assert_eq!(group.pending, vec![]);
    assert_eq!(run(&mut group, &|_| true, None), Vec::<String>::new());
}

#[test]
fn entry_whose_delivery_fails_stays_pending_and_is_retried() {
    let mut group = Group {
        pending: vec![],
        backlog: vec![entry("1-0", "a"), entry("2-0", "b")],
        acknowledged: vec![],
    };
    let first = run(&mut group, &|id| id != "1-0", None);
    assert_eq!(first, vec!["1-0".to_string(), "2-0".to_string()]);
    assert_eq!(group.pending, vec![entry("1-0", "a")]);
    let second = run(&mut group, &|_| true, None);
    assert_eq!(second, vec!["1-0".to_string()]);
    assert_eq!(group.pending, vec![]);
}

#[test]
fn one_cycle_reads_at_most_two_batches() {
    let backlog: Vec<StreamEntry> =
        (0..25).map(|i| entry(&format!("{}-0", i + 1), "x")).collect();
    let mut group = Group { pending: vec![], backlog, acknowledged: vec![] };
    assert_eq!(run(&mut group, &|_| false, None).len(), 10);
    assert_eq!(run(&mut group, &|_| false, None).len(), 20);
    assert_eq!(group.pending.len(), 20);
    assert_eq!(group.backlog.len(), 5);
}

#[test]
fn work_item_becomes_the_invitation_mail() {
    let mail = item("1-0", "abc").into_mail("https://portal.example".to_string());
    assert_eq!(
        mail,
        Notification {
            email: "a@x.com".to_string(),
            title: "Приглашение на регистрацию".to_string(),
            message: "Вас пригласил(-а) зарегистрироваться на портал HITS Ada Lovelace в качестве пользователя. Для регистрации на сервисе перейдите по данной ссылке и заполните все поля.".to_string(),
            link: "https://portal.example/auth/registration?code=abc".to_string(),
            button_name: "Зарегистрироваться".to_string(),
        }
    );
}
