//! The sending of a batch of invitations: rows and stream entries are
//! written in one transaction, or not at all.

use crate::error::{AppError, AppErrorView};
use crate::invitation::{
    conflict, entries_for, fields_views, invitation_views, new_invitation_views,
    not_yet_invited, second_send_inserts_nothing, to_insert, Invitation, InvitationPayload,
    InvitationService, InvitationView, NewInvitation, NewInvitationView,
};
use crate::role::Role;
use crate::security::Claims;
use crate::text::{copy_texts, views};
use crate::worker::{Field, FieldView};
use vstd::prelude::*;

verus! {

/// What the sending of a batch waits for.
#[derive(Debug, Clone, PartialEq, Eq)]
pub enum OutboxStep {
    /// The addresses of the batch that have an account.
    Accounts,
    /// The addresses of the batch that have an open invitation.
    Invitations,
    /// The rows as the persistence layer inserted them, in a transaction
    /// that stays open.
    Insertion,
    /// The appending of the entries; so many rows were inserted.
    Appending(usize),
    /// The commit of the transaction; so many rows were inserted, and their
    /// entries stand in the stream under these identifiers.
    Commit(usize, Vec<String>),
    /// The withdrawal of the entries from the stream, after this failure of
    /// the commit.
    Withdrawal(AppError),
    /// The rollback of the transaction, after this failure.
    Rollback(AppError),
    /// Nothing: the sending is over.
    Done,
}

/// The model of an [`OutboxStep`].
pub enum OutboxStepView {
    Accounts,
    Invitations,
    Insertion,
    Appending(usize),
    Commit(usize, Seq<Seq<char>>),
    Withdrawal(AppErrorView),
    Rollback(AppErrorView),
    Done,
}

impl View for OutboxStep {
    type V = OutboxStepView;

    open spec fn view(&self) -> OutboxStepView {
        match self {
            OutboxStep::Accounts => OutboxStepView::Accounts,
            OutboxStep::Invitations => OutboxStepView::Invitations,
            OutboxStep::Insertion => OutboxStepView::Insertion,
            OutboxStep::Appending(count) => OutboxStepView::Appending(*count),
            OutboxStep::Commit(count, ids) => OutboxStepView::Commit(*count, views(ids@)),
            OutboxStep::Withdrawal(e) => OutboxStepView::Withdrawal(e@),
            OutboxStep::Rollback(e) => OutboxStepView::Rollback(e@),
            OutboxStep::Done => OutboxStepView::Done,
        }
    }
}

/// The sending of one batch of invitations between two steps.
#[derive(Debug, Clone, PartialEq, Eq)]
pub struct Outbox {
    pub step: OutboxStep,
    /// The names under which the invitations are sent.
    pub sender_first_name: String,
    pub sender_last_name: String,
    /// The addresses that are to be invited.
    pub emails: Vec<String>,
    /// The roles that each invitation grants.
    pub roles: Vec<Role>,
}

/// The model of an [`Outbox`].
pub struct OutboxView {
    pub step: OutboxStepView,
    pub sender_first_name: Seq<char>,
    pub sender_last_name: Seq<char>,
    pub emails: Seq<Seq<char>>,
    pub roles: Seq<Role>,
}

impl View for Outbox {
    type V = OutboxView;

    open spec fn view(&self) -> OutboxView {
        OutboxView {
            step: self.step@,
            sender_first_name: self.sender_first_name@,
            sender_last_name: self.sender_last_name@,
            emails: views(self.emails@),
            roles: self.roles@,
        }
    }
}

/// What the sending of a batch asks its surroundings to do next.
#[derive(Debug, PartialEq, Eq)]
pub enum OutboxAction {
    /// Find which of these addresses have an account.
    FindAccounts(Vec<String>),
    /// Find which of these addresses have an open invitation.
    FindInvitations(Vec<String>),
    /// Open a transaction and insert these invitations in it.
    Insert(Vec<NewInvitation>),
    /// Append one entry with these fields to the stream for each element,
    /// in this order: all of them or none.
    Append(Vec<Vec<Field>>),
    /// Commit the transaction.
    Commit,
    /// Take the entries with these identifiers off the stream again.
    Withdraw(Vec<String>),
    /// Roll the transaction back.
    Rollback,
    /// Answer the caller: with the number of invitations that were sent, or
    /// with the failure.
    Finish(Result<usize, AppError>),
}

/// The model of an [`OutboxAction`].
pub enum OutboxActionView {
    FindAccounts(Seq<Seq<char>>),
    FindInvitations(Seq<Seq<char>>),
    Insert(Seq<NewInvitationView>),
    Append(Seq<Seq<FieldView>>),
    Commit,
    Withdraw(Seq<Seq<char>>),
    Rollback,
    Finish(Result<usize, AppErrorView>),
}

impl View for OutboxAction {
    type V = OutboxActionView;

    open spec fn view(&self) -> OutboxActionView {
        match self {
            OutboxAction::FindAccounts(emails) => OutboxActionView::FindAccounts(views(emails@)),
            OutboxAction::FindInvitations(emails) => OutboxActionView::FindInvitations(
                views(emails@),
            ),
            OutboxAction::Insert(rows) => OutboxActionView::Insert(new_invitation_views(rows@)),
            OutboxAction::Append(entries) => OutboxActionView::Append(fields_views(entries@)),
            OutboxAction::Commit => OutboxActionView::Commit,
            OutboxAction::Withdraw(ids) => OutboxActionView::Withdraw(views(ids@)),
            OutboxAction::Rollback => OutboxActionView::Rollback,
            OutboxAction::Finish(Ok(count)) => OutboxActionView::Finish(Ok(*count)),
            OutboxAction::Finish(Err(e)) => OutboxActionView::Finish(Err(e@)),
        }
    }
}

/// What the surroundings report back to the sending of a batch.
#[derive(Debug, Clone, PartialEq, Eq)]
pub enum OutboxEvent {
    /// These of the addresses have an account.
    Accounts(Vec<String>),
    /// These of the addresses have an open invitation.
    Invitations(Vec<String>),
    /// The invitations were inserted as these rows, in this order; the
    /// transaction is open.
    Inserted(Vec<Invitation>),
    /// The entries were appended to the stream, under these identifiers.
    Appended(Vec<String>),
    /// The transaction was committed.
    Committed,
    /// The entries were taken off the stream.
    Withdrawn,
    /// The transaction was rolled back.
    RolledBack,
    /// What was asked for failed, with this error.
    Failed(AppError),
}

/// The model of an [`OutboxEvent`].
pub enum OutboxEventView {
    Accounts(Seq<Seq<char>>),
    Invitations(Seq<Seq<char>>),
    Inserted(Seq<InvitationView>),
    Appended(Seq<Seq<char>>),
    Committed,
    Withdrawn,
    RolledBack,
    Failed(AppErrorView),
}

impl View for OutboxEvent {
    type V = OutboxEventView;

    open spec fn view(&self) -> OutboxEventView {
        match self {
            OutboxEvent::Accounts(emails) => OutboxEventView::Accounts(views(emails@)),
            OutboxEvent::Invitations(emails) => OutboxEventView::Invitations(views(emails@)),
            OutboxEvent::Inserted(rows) => OutboxEventView::Inserted(invitation_views(rows@)),
            OutboxEvent::Appended(ids) => OutboxEventView::Appended(views(ids@)),
            OutboxEvent::Withdrawn => OutboxEventView::Withdrawn,
            OutboxEvent::Committed => OutboxEventView::Committed,
            OutboxEvent::RolledBack => OutboxEventView::RolledBack,
            OutboxEvent::Failed(e) => OutboxEventView::Failed(e@),
        }
    }
}

/// The failure that an event stands for where it is not what the sending
/// waits for: the failure that it reports, or an internal error where it
/// reports something out of turn.
pub open spec fn failure(event: OutboxEventView) -> AppErrorView {
    match event {
        OutboxEventView::Failed(e) => e,
        _ => AppErrorView::InternalServerError,
    }
}

/// The sending at `step`.
pub open spec fn at(outbox: OutboxView, step: OutboxStepView) -> OutboxView {
    OutboxView { step, ..outbox }
}

/// The sending ends with `outcome`.
pub open spec fn finished(outbox: OutboxView, outcome: Result<usize, AppErrorView>) -> (
    OutboxView,
    OutboxActionView,
) {
    (at(outbox, OutboxStepView::Done), OutboxActionView::Finish(outcome))
}

/// The sending gives up inside the transaction: it rolls back and will end
/// with `error`.
pub open spec fn undone(outbox: OutboxView, error: AppErrorView) -> (OutboxView, OutboxActionView) {
    (at(outbox, OutboxStepView::Rollback(error)), OutboxActionView::Rollback)
}

/// The beginning of the sending of a batch: it asks which addresses have an
/// account.
pub open spec fn begun(
    sender_first_name: Seq<char>,
    sender_last_name: Seq<char>,
    emails: Seq<Seq<char>>,
    roles: Seq<Role>,
) -> (OutboxView, OutboxActionView) {
    (
        OutboxView {
            step: OutboxStepView::Accounts,
            sender_first_name,
            sender_last_name,
            emails,
            roles,
        },
        OutboxActionView::FindAccounts(emails),
    )
}

/// One step of the sending of a batch.
///
/// One address with an account ends the sending with a conflict before
/// anything is written. Else the addresses without an open invitation are
/// invited; where there is none, the sending ends with the count zero. The
/// invitations are inserted and their entries appended inside one
/// transaction, which is committed only after the stream took the entries:
/// a row is never visible without its entry. The stream is no part of the
/// transaction; where the commit itself fails, the entries are taken off
/// the stream again before the transaction is rolled back, so that a failed
/// sending leaves neither rows nor entries. The sending ends with the count
/// of the rows only after the commit. A failure before the
/// transaction ends the sending with that failure; a failure inside it rolls
/// the transaction back first.
pub open spec fn advanced(outbox: OutboxView, event: OutboxEventView) -> (
    OutboxView,
    OutboxActionView,
) {
    match (outbox.step, event) {
        (OutboxStepView::Accounts, OutboxEventView::Accounts(registered)) => if registered.len()
            > 0 {
            finished(outbox, Err(conflict(registered)))
        } else {
            (
                at(outbox, OutboxStepView::Invitations),
                OutboxActionView::FindInvitations(outbox.emails),
            )
        },
        (OutboxStepView::Invitations, OutboxEventView::Invitations(invited)) => {
            let rows = to_insert(outbox.emails, outbox.roles, invited);
            if rows.len() == 0 {
                finished(outbox, Ok(0))
            } else {
                (at(outbox, OutboxStepView::Insertion), OutboxActionView::Insert(rows))
            }
        },
        (OutboxStepView::Insertion, OutboxEventView::Inserted(inserted)) => (
            at(outbox, OutboxStepView::Appending(inserted.len() as usize)),
            OutboxActionView::Append(
                entries_for(inserted, outbox.sender_first_name, outbox.sender_last_name),
            ),
        ),
        (OutboxStepView::Appending(count), OutboxEventView::Appended(ids)) => (
            at(outbox, OutboxStepView::Commit(count, ids)),
            OutboxActionView::Commit,
        ),
        (OutboxStepView::Commit(count, _), OutboxEventView::Committed) => finished(
            outbox,
            Ok(count),
        ),
        (OutboxStepView::Commit(_, ids), _) => (
            at(outbox, OutboxStepView::Withdrawal(failure(event))),
            OutboxActionView::Withdraw(ids),
        ),
        (OutboxStepView::Withdrawal(error), _) => undone(outbox, error),
        (OutboxStepView::Rollback(error), _) => finished(outbox, Err(error)),
        (OutboxStepView::Insertion, _) => undone(outbox, failure(event)),
        (OutboxStepView::Appending(_), _) => undone(outbox, failure(event)),
        (OutboxStepView::Done, _) => finished(outbox, Err(AppErrorView::InternalServerError)),
        _ => finished(outbox, Err(failure(event))),
    }
}

impl InvitationService {
    /// Begins the sending of a batch of invitations in the name of `sender`.
    /// The surroundings do what the action says and come back to
    /// [`Outbox::advance`] with the event that reports it, until the action
    /// is to finish.
    pub fn send_invitations(sender: &Claims, payload: InvitationPayload) -> (next: (
        Outbox,
        OutboxAction,
    ))
        ensures
            (next.0@, next.1@) == begun(
                sender@.first_name,
                sender@.last_name,
                views(payload.emails@),
                payload.roles@,
            ),
    {
        let emails = copy_texts(&payload.emails);
        let outbox = Outbox {
            step: OutboxStep::Accounts,
            sender_first_name: sender.first_name.clone(),
            sender_last_name: sender.last_name.clone(),
            emails: payload.emails,
            roles: payload.roles,
        };
        (outbox, OutboxAction::FindAccounts(emails))
    }
}

fn failure_of(event: OutboxEvent) -> (error: AppError)
    ensures
        error@ == failure(event@),
{
    match event {
        OutboxEvent::Failed(e) => e,
        _ => AppError::InternalServerError,
    }
}

impl Outbox {
    fn to(self, step: OutboxStep) -> (outbox: Outbox)
        ensures
            outbox@ == at(self@, step@),
    {
        Outbox {
            step,
            sender_first_name: self.sender_first_name,
            sender_last_name: self.sender_last_name,
            emails: self.emails,
            roles: self.roles,
        }
    }

    fn finish(self, outcome: Result<usize, AppError>) -> (next: (Outbox, OutboxAction))
        ensures
            (next.0@, next.1@) == finished(
                self@,
                match outcome {
                    Ok(count) => Ok(count),
                    Err(e) => Err(e@),
                },
            ),
    {
        (self.to(OutboxStep::Done), OutboxAction::Finish(outcome))
    }

    fn undo(self, error: AppError) -> (next: (Outbox, OutboxAction))
        ensures
            (next.0@, next.1@) == undone(self@, error@),
    {
        (self.to(OutboxStep::Rollback(error)), OutboxAction::Rollback)
    }

    /// Takes the sending one step further: folds `event` into its state and
    /// says what the surroundings are to do next.
    pub fn advance(self, event: OutboxEvent) -> (next: (Outbox, OutboxAction))
        ensures
            (next.0@, next.1@) == advanced(self@, event@),
    {
        let Outbox { step, sender_first_name, sender_last_name, emails, roles } = self;
        let outbox = Outbox {
            step: OutboxStep::Done,
            sender_first_name,
            sender_last_name,
            emails,
            roles,
        };
        match step {
            OutboxStep::Accounts => match event {
                OutboxEvent::Accounts(registered) => {
                    match InvitationService::check_unregistered(&registered) {
                        Err(e) => outbox.finish(Err(e)),
                        Ok(()) => {
                            let emails = copy_texts(&outbox.emails);
                            (
                                outbox.to(OutboxStep::Invitations),
                                OutboxAction::FindInvitations(emails),
                            )
                        },
                    }
                },
                other => {
                    let error = failure_of(other);
                    outbox.finish(Err(error))
                },
            },
            OutboxStep::Invitations => match event {
                OutboxEvent::Invitations(invited) => {
                    let rows = InvitationService::new_invitations(
                        &outbox.emails,
                        &outbox.roles,
                        &invited,
                    );
                    if rows.len() == 0 {
                        outbox.finish(Ok(0))
                    } else {
                        (outbox.to(OutboxStep::Insertion), OutboxAction::Insert(rows))
                    }
                },
                other => {
                    let error = failure_of(other);
                    outbox.finish(Err(error))
                },
            },
            OutboxStep::Insertion => match event {
                OutboxEvent::Inserted(inserted) => {
                    let entries = InvitationService::outbox_entries(
                        &outbox.sender_first_name,
                        &outbox.sender_last_name,
                        &inserted,
                    );
                    let count = inserted.len();
                    (outbox.to(OutboxStep::Appending(count)), OutboxAction::Append(entries))
                },
                other => {
                    let error = failure_of(other);
                    outbox.undo(error)
                },
            },
            OutboxStep::Appending(count) => match event {
                OutboxEvent::Appended(ids) => (
                    outbox.to(OutboxStep::Commit(count, ids)),
                    OutboxAction::Commit,
                ),
                other => {
                    let error = failure_of(other);
                    outbox.undo(error)
                },
            },
            OutboxStep::Commit(count, ids) => match event {
                OutboxEvent::Committed => outbox.finish(Ok(count)),
                other => {
                    let error = failure_of(other);
                    (outbox.to(OutboxStep::Withdrawal(error)), OutboxAction::Withdraw(ids))
                },
            },
            OutboxStep::Withdrawal(error) => outbox.undo(error),
            OutboxStep::Rollback(error) => outbox.finish(Err(error)),
            OutboxStep::Done => outbox.finish(Err(AppError::InternalServerError)),
        }
    }
}

/// All or nothing: one address with an account ends the sending with the
/// conflict that names the registered addresses, before anything was
/// inserted or appended.
pub proof fn conflict_ends_before_anything_is_written(
    outbox: OutboxView,
    registered: Seq<Seq<char>>,
)
    requires
        outbox.step == OutboxStepView::Accounts,
        registered.len() > 0,
    ensures
        advanced(outbox, OutboxEventView::Accounts(registered)) == finished(
            outbox,
            Err(conflict(registered)),
        ),
{
}

/// Sending a batch a second time counts zero. Where every invitation that
/// was open at the first sending (`invited`) is still open at the second
/// (`later`), and so is every invitation that the first sending inserted,
/// the second sending ends with the count zero and asks for no insertion
/// and no entry: no invitation is announced twice.
pub proof fn second_sending_counts_zero(
    outbox: OutboxView,
    invited: Seq<Seq<char>>,
    later: Seq<Seq<char>>,
)
    requires
        outbox.step == OutboxStepView::Invitations,
        forall|e: Seq<char>| invited.contains(e) ==> later.contains(e),
        forall|e: Seq<char>|
            not_yet_invited(outbox.emails, invited).contains(e) ==> later.contains(e),
    ensures
        advanced(outbox, OutboxEventView::Invitations(later)) == finished(outbox, Ok(0)),
{
    second_send_inserts_nothing(outbox.emails, outbox.roles, invited, later);
}

/// The writes come in one order. Rows are inserted only in answer to the
/// open invitations, entries appended only in answer to the inserted rows,
/// and the transaction is committed exactly in answer to the appended
/// entries: no row becomes visible without its entry. Entries are taken off
/// the stream only in answer to a commit that did not succeed. The sending
/// ends with a count only where nothing was to be sent, or in answer to the
/// commit.
pub proof fn writes_come_in_order(outbox: OutboxView, event: OutboxEventView)
    ensures
        advanced(outbox, event).1 is Insert ==> outbox.step == OutboxStepView::Invitations
            && event is Invitations,
        advanced(outbox, event).1 is Append ==> outbox.step == OutboxStepView::Insertion
            && event is Inserted,
        advanced(outbox, event).1 == OutboxActionView::Commit <==> outbox.step is Appending
            && event is Appended,
        advanced(outbox, event).1 is Withdraw <==> outbox.step is Commit && event
            != OutboxEventView::Committed,
        advanced(outbox, event).1 matches OutboxActionView::Finish(Ok(count)) ==> (count == 0
            && outbox.step == OutboxStepView::Invitations && event is Invitations) || (
        outbox.step is Commit && outbox.step->Commit_0 == count && event
            == OutboxEventView::Committed),
{
}

/// One entry is appended for each row that was inserted, in the order of
/// insertion, and the count that ends the sending is the number of these
/// rows.
pub proof fn entries_follow_rows(
    outbox: OutboxView,
    inserted: Seq<InvitationView>,
    ids: Seq<Seq<char>>,
)
    requires
        outbox.step == OutboxStepView::Insertion,
        inserted.len() <= usize::MAX,
    ensures
        ({
            let appending = advanced(outbox, OutboxEventView::Inserted(inserted));
            let committing = advanced(appending.0, OutboxEventView::Appended(ids));
            let ended = advanced(committing.0, OutboxEventView::Committed);
            &&& appending.1 == OutboxActionView::Append(
                entries_for(inserted, outbox.sender_first_name, outbox.sender_last_name),
            )
            &&& entries_for(inserted, outbox.sender_first_name, outbox.sender_last_name).len()
                == inserted.len()
            &&& committing.1 == OutboxActionView::Commit
            &&& ended.1 == OutboxActionView::Finish(Ok(inserted.len() as usize))
        }),
{
}

/// A failure inside the transaction, before the commit, undoes it:
/// whatever fails at the insertion or at the appending, the sending rolls
/// the transaction back and then ends with that failure, whatever the
/// rollback reports. Nothing stands in the stream then: the entries are
/// appended all or none.
pub proof fn failure_inside_transaction_rolls_back(
    outbox: OutboxView,
    error: AppErrorView,
    report: OutboxEventView,
)
    requires
        outbox.step == OutboxStepView::Insertion || outbox.step is Appending,
    ensures
        advanced(outbox, OutboxEventView::Failed(error)) == undone(outbox, error),
        advanced(undone(outbox, error).0, report) == finished(outbox, Err(error)),
{
}

/// A failed commit leaves neither rows nor entries. Where the commit does
/// not succeed after the entries were appended, the sending first asks for
/// exactly these entries to be taken off the stream, then for the
/// transaction to be rolled back, and then ends with the failure of the
/// commit, whatever the withdrawal and the rollback report.
pub proof fn failed_commit_withdraws_the_entries(
    outbox: OutboxView,
    count: usize,
    ids: Seq<Seq<char>>,
    error: AppErrorView,
    withdrawn: OutboxEventView,
    rolled_back: OutboxEventView,
)
    requires
        outbox.step == OutboxStepView::Commit(count, ids),
    ensures
        ({
            let withdrawing = advanced(outbox, OutboxEventView::Failed(error));
            let undoing = advanced(withdrawing.0, withdrawn);
            let ended = advanced(undoing.0, rolled_back);
            &&& withdrawing.1 == OutboxActionView::Withdraw(ids)
            &&& undoing.1 == OutboxActionView::Rollback
            &&& ended.1 == OutboxActionView::Finish(Err(error))
        }),
{
}

} // verus!
