//! Invitations: which addresses a batch invites, and what announces each
//! invitation on the stream.

use crate::error::{outcome_view, AppError, AppErrorView};
use crate::role::{copy_roles, Role};
use crate::text::{contains, digit, join, joined, views};
use crate::worker::{
    field_names_differ, field_value, work_item, Field, FieldView, StreamEntryView, WorkItemView,
};
use vstd::prelude::*;

verus! {

/// Microseconds for which an invitation stays open after it was looked at.
pub const INVITATION_EXTENSION: i64 = 3 * 60 * 60 * 1_000_000;

/// What an administrator asks for: these addresses are to be invited, each
/// with these roles.
#[derive(Debug, Clone, PartialEq, Eq)]
pub struct InvitationPayload {
    pub emails: Vec<String>,
    pub roles: Vec<Role>,
}

/// An invitation as the persistence layer keeps it.
#[derive(Debug, Clone, PartialEq, Eq)]
pub struct Invitation {
    pub id: u128,
    pub email: String,
    pub roles: Vec<Role>,
    /// The instant, in microseconds since the Unix epoch, from which the
    /// invitation is no longer open.
    pub expiry_date: i64,
}

/// The model of an [`Invitation`].
pub struct InvitationView {
    pub id: u128,
    pub email: Seq<char>,
    pub roles: Seq<Role>,
    pub expiry_date: i64,
}

impl View for Invitation {
    type V = InvitationView;

    open spec fn view(&self) -> InvitationView {
        InvitationView {
            id: self.id,
            email: self.email@,
            roles: self.roles@,
            expiry_date: self.expiry_date,
        }
    }
}

/// The models of a list of invitations, in order.
pub open spec fn invitation_views(list: Seq<Invitation>) -> Seq<InvitationView> {
    list.map_values(|i: Invitation| i@)
}

/// An invitation that is to be inserted. The persistence layer gives it its
/// identity and its expiry.
#[derive(Debug, Clone, PartialEq, Eq)]
pub struct NewInvitation {
    pub email: String,
    pub roles: Vec<Role>,
}

/// The model of a [`NewInvitation`].
pub struct NewInvitationView {
    pub email: Seq<char>,
    pub roles: Seq<Role>,
}

impl View for NewInvitation {
    type V = NewInvitationView;

    open spec fn view(&self) -> NewInvitationView {
        NewInvitationView { email: self.email@, roles: self.roles@ }
    }
}

/// The models of a list of new invitations, in order.
pub open spec fn new_invitation_views(list: Seq<NewInvitation>) -> Seq<NewInvitationView> {
    list.map_values(|i: NewInvitation| i@)
}

/// Whether an invitation is open at `now`.
pub open spec fn open_at(invitation: InvitationView, now: i64) -> bool {
    invitation.expiry_date > now
}

/// The expiry of an invitation that was looked at at `now`: the later of
/// the expiry that it had and `INVITATION_EXTENSION` after `now`. A look
/// extends an invitation and never shortens it.
pub open spec fn extended(expiry_date: i64, now: i64) -> int {
    if expiry_date >= now + INVITATION_EXTENSION {
        expiry_date as int
    } else {
        now + INVITATION_EXTENSION
    }
}

/// What a look at an invitation returns: the invitation with its expiry
/// extended, if it is there and open; else that it is not found.
pub open spec fn looked_at(found: Option<InvitationView>, now: i64) -> Result<
    InvitationView,
    AppErrorView,
> {
    match found {
        Some(invitation) => if open_at(invitation, now) {
            Ok(
                InvitationView {
                    expiry_date: extended(invitation.expiry_date, now) as i64,
                    ..invitation
                },
            )
        } else {
            Err(AppErrorView::NotFound)
        },
        None => Err(AppErrorView::NotFound),
    }
}

/// A look extends an invitation and never shortens it. An invitation that
/// is open comes back as itself but for its expiry, which is not earlier
/// than it was and not earlier than `INVITATION_EXTENSION` after `now`; it
/// is one of the two. An invitation that is missing or closed is not found.
pub proof fn look_never_shortens(invitation: InvitationView, now: i64)
    requires
        now + INVITATION_EXTENSION <= i64::MAX,
    ensures
        open_at(invitation, now) ==> (looked_at(Some(invitation), now) matches Ok(seen)
            && seen.id == invitation.id && seen.email == invitation.email && seen.roles
            == invitation.roles && seen.expiry_date >= invitation.expiry_date
            && seen.expiry_date >= now + INVITATION_EXTENSION && (seen.expiry_date
            == invitation.expiry_date || seen.expiry_date == now + INVITATION_EXTENSION)),
        !open_at(invitation, now) ==> looked_at(Some(invitation), now) == Err::<
            InvitationView,
            AppErrorView,
        >(AppErrorView::NotFound),
        looked_at(None, now) == Err::<InvitationView, AppErrorView>(AppErrorView::NotFound),
{
}

/// The addresses of `emails` that are to be invited, in order: those that
/// are not among `invited`, each once, where it first stands.
pub open spec fn not_yet_invited(emails: Seq<Seq<char>>, invited: Seq<Seq<char>>) -> Seq<
    Seq<char>,
>
    decreases emails.len(),
{
    if emails.len() == 0 {
        emails
    } else {
        let before = not_yet_invited(emails.drop_last(), invited);
        if invited.contains(emails.last()) || before.contains(emails.last()) {
            before
        } else {
            before.push(emails.last())
        }
    }
}

/// One invitation with `roles` for each of `emails`.
pub open spec fn invitations_for(emails: Seq<Seq<char>>, roles: Seq<Role>) -> Seq<
    NewInvitationView,
> {
    emails.map_values(|email: Seq<char>| NewInvitationView { email, roles })
}

/// The refusal of a batch because these addresses have accounts already.
pub open spec fn conflict(registered: Seq<Seq<char>>) -> AppErrorView {
    AppErrorView::Custom("Следующие email уже зарегистрированы: "@ + joined(registered, ", "@))
}

/// The invitations that a batch inserts where none of its addresses has an
/// account: one for each address that is to be invited.
pub open spec fn to_insert(emails: Seq<Seq<char>>, roles: Seq<Role>, invited: Seq<Seq<char>>) -> Seq<
    NewInvitationView,
> {
    invitations_for(not_yet_invited(emails, invited), roles)
}

/// The invitations that a batch inserts. `registered` are those addresses of
/// the batch that have an account, `invited` those that have an open
/// invitation. One registered address refuses the whole batch. Addresses
/// with an open invitation are passed over, so that nobody is invited twice;
/// that nothing is left is no failure.
pub open spec fn batch(
    emails: Seq<Seq<char>>,
    roles: Seq<Role>,
    registered: Seq<Seq<char>>,
    invited: Seq<Seq<char>>,
) -> Result<Seq<NewInvitationView>, AppErrorView> {
    if registered.len() > 0 {
        Err(conflict(registered))
    } else {
        Ok(to_insert(emails, roles, invited))
    }
}

/// The lower-case hexadecimal digit that writes a value below sixteen.
pub open spec fn hex_digit(value: nat) -> char {
    if value < 10 {
        digit(value)
    } else if value == 10 {
        'a'
    } else if value == 11 {
        'b'
    } else if value == 12 {
        'c'
    } else if value == 13 {
        'd'
    } else if value == 14 {
        'e'
    } else {
        'f'
    }
}

/// The last `digits` hexadecimal digits of `value`, the most significant of
/// them first.
pub open spec fn hex(value: nat, digits: nat) -> Seq<char>
    decreases digits,
{
    if digits == 0 {
        Seq::empty()
    } else {
        hex(value / 16, (digits - 1) as nat).push(hex_digit(value % 16))
    }
}

/// The text form of the identifier with this value: its 32 hexadecimal
/// digits in lower case, the most significant first, with a hyphen after
/// the 8th, the 12th, the 16th and the 20th.
pub open spec fn hyphenated(id: u128) -> Seq<char> {
    let digits = hex(id as nat, 32);
    digits.subrange(0, 8) + seq!['-'] + digits.subrange(8, 12) + seq!['-'] + digits.subrange(
        12,
        16,
    ) + seq!['-'] + digits.subrange(16, 20) + seq!['-'] + digits.subrange(20, 32)
}

/// Calls `Uuid::to_string` on the identifier that `Uuid::from_u128` makes
/// of `id`: the result is the lower-case hyphenated form of the value.
#[verifier::external_body]
fn uuid_text(id: u128) -> (text: String)
    ensures
        text@ == hyphenated(id),
{
    uuid::Uuid::from_u128(id).to_string()
}

/// The fields of the stream entry that announces `invitation`, sent by
/// `sender`.
pub open spec fn entry_fields(invitation: InvitationView, sender_first_name: Seq<char>,
    sender_last_name: Seq<char>) -> Seq<FieldView> {
    seq![
        FieldView { name: "id"@, value: hyphenated(invitation.id) },
        FieldView { name: "receiver"@, value: invitation.email },
        FieldView { name: "sender_first_name"@, value: sender_first_name },
        FieldView { name: "sender_last_name"@, value: sender_last_name },
    ]
}

/// The models of a list of field lists, in order.
pub open spec fn fields_views(list: Seq<Vec<Field>>) -> Seq<Seq<FieldView>> {
    list.map_values(|fields: Vec<Field>| fields@.map_values(|f: Field| f@))
}

/// The fields of the entries that announce the inserted rows: one entry for
/// each row, in order.
pub open spec fn entries_for(
    inserted: Seq<InvitationView>,
    sender_first_name: Seq<char>,
    sender_last_name: Seq<char>,
) -> Seq<Seq<FieldView>> {
    inserted.map_values(
        |row: InvitationView| entry_fields(row, sender_first_name, sender_last_name),
    )
}

/// The home of the operations on invitations.
pub struct InvitationService;

impl InvitationService {
    /// Looks at an invitation. `found` is what the persistence layer holds
    /// under the identifier that was asked for. An invitation that is
    /// missing or no longer open is not found; one that is open comes back
    /// with its expiry extended to `INVITATION_EXTENSION` after `now`,
    /// unless it is open for longer anyway, to be stored again.
    pub fn get_invitation(found: Option<Invitation>, now: i64) -> (outcome: Result<
        Invitation,
        AppError,
    >)
        requires
            now + INVITATION_EXTENSION <= i64::MAX,
        ensures
            outcome_view(outcome) == looked_at(
                match found {
                    Some(invitation) => Some(invitation@),
                    None => None,
                },
                now,
            ),
    {
        match found {
            Some(invitation) => {
                if invitation.expiry_date > now {
                    let expiry_date = if invitation.expiry_date >= now + INVITATION_EXTENSION {
                        invitation.expiry_date
                    } else {
                        now + INVITATION_EXTENSION
                    };
                    Ok(
                        Invitation {
                            id: invitation.id,
                            email: invitation.email,
                            roles: invitation.roles,
                            expiry_date,
                        },
                    )
                } else {
                    Err(AppError::NotFound)
                }
            },
            None => Err(AppError::NotFound),
        }
    }

    /// Refuses a batch as soon as one of its addresses has an account:
    /// `registered` are those that have one.
    pub fn check_unregistered(registered: &Vec<String>) -> (outcome: Result<(), AppError>)
        ensures
            outcome is Ok <==> registered@.len() == 0,
            outcome matches Err(e) ==> e@ == conflict(views(registered@)),
    {
        if registered.len() > 0 {
            let mut text = String::from_str("Следующие email уже зарегистрированы: ");
            let list = join(registered, ", ");
            text.append(list.as_str());
            Err(AppError::Custom(text))
        } else {
            Ok(())
        }
    }

    /// Writes the invitations that a batch inserts where none of its
    /// addresses has an account: one with `roles` for each address of
    /// `emails` that has no open invitation, each address once. `invited`
    /// are the addresses that have an open invitation.
    pub fn new_invitations(emails: &Vec<String>, roles: &Vec<Role>, invited: &Vec<String>) -> (rows:
        Vec<NewInvitation>)
        ensures
            new_invitation_views(rows@) == to_insert(views(emails@), roles@, views(invited@)),
    {
        let ghost all = views(emails@);
        let ghost known = views(invited@);
        let mut rows: Vec<NewInvitation> = Vec::new();
        let mut fresh: Vec<String> = Vec::new();
        let mut i: usize = 0;
        while i < emails.len()
            invariant
                i <= emails.len(),
                all == views(emails@),
                known == views(invited@),
                views(fresh@) == not_yet_invited(all.take(i as int), known),
                new_invitation_views(rows@) == invitations_for(views(fresh@), roles@),
            decreases emails.len() - i,
        {
            let email = &emails[i];
            proof {
                let next = all.take(i + 1);
                assert(next.drop_last() == all.take(i as int));
            }
            if !contains(invited, email) && !contains(&fresh, email) {
                let ghost rows_before = new_invitation_views(rows@);
                let row = NewInvitation { email: email.clone(), roles: copy_roles(roles) };
                rows.push(row);
                fresh.push(email.clone());
                assert(new_invitation_views(rows@) =~= rows_before.push(row@));
            }
            i += 1;
        }
        assert(all.take(emails.len() as int) == all);
        rows
    }

    /// Writes the fields of the stream entries that announce the invitations
    /// that were inserted: one entry for each, in the order of insertion,
    /// with the names of the sender.
    pub fn outbox_entries(
        sender_first_name: &String,
        sender_last_name: &String,
        inserted: &Vec<Invitation>,
    ) -> (entries: Vec<Vec<Field>>)
        ensures
            fields_views(entries@) == entries_for(
                invitation_views(inserted@),
                sender_first_name@,
                sender_last_name@,
            ),
    {
        let mut entries: Vec<Vec<Field>> = Vec::new();
        let mut i: usize = 0;
        while i < inserted.len()
            invariant
                i <= inserted.len(),
                fields_views(entries@) == entries_for(
                    invitation_views(inserted@).take(i as int),
                    sender_first_name@,
                    sender_last_name@,
                ),
            decreases inserted.len() - i,
        {
            let invitation = &inserted[i];
            let mut fields: Vec<Field> = Vec::new();
            fields.push(Field { name: String::from_str("id"), value: uuid_text(invitation.id) });
            fields.push(
                Field { name: String::from_str("receiver"), value: invitation.email.clone() },
            );
            fields.push(
                Field { name: String::from_str("sender_first_name"), value: sender_first_name.clone() },
            );
            fields.push(
                Field { name: String::from_str("sender_last_name"), value: sender_last_name.clone() },
            );
            let ghost before = fields_views(entries@);
            let ghost these = entry_fields(invitation@, sender_first_name@, sender_last_name@);
            assert(fields@.map_values(|f: Field| f@) =~= these);
            entries.push(fields);
            assert(fields_views(entries@) =~= before.push(these));
            assert(entries_for(
                invitation_views(inserted@).take(i + 1),
                sender_first_name@,
                sender_last_name@,
            ) =~= before.push(these));
            i += 1;
        }
        assert(invitation_views(inserted@).take(inserted.len() as int) =~= invitation_views(
            inserted@,
        ));
        entries
    }
}

proof fn not_yet_invited_members(emails: Seq<Seq<char>>, invited: Seq<Seq<char>>)
    ensures
        forall|e: Seq<char>|
            not_yet_invited(emails, invited).contains(e) <==> emails.contains(e)
                && !invited.contains(e),
        not_yet_invited(emails, invited).no_duplicates(),
    decreases emails.len(),
{
    let kept = not_yet_invited(emails, invited);
    if emails.len() > 0 {
        let rest = emails.drop_last();
        let last = emails.last();
        not_yet_invited_members(rest, invited);
        let kept_rest = not_yet_invited(rest, invited);
        let grows = !invited.contains(last) && !kept_rest.contains(last);
        assert(kept == if grows {
            kept_rest.push(last)
        } else {
            kept_rest
        });
        assert forall|e: Seq<char>| kept.contains(e) <==> emails.contains(e) && !invited.contains(
            e,
        ) by {
            assert(emails[emails.len() - 1] == last);
            if emails.contains(e) {
                let i = choose|i: int| 0 <= i < emails.len() && emails[i] == e;
                if i < rest.len() {
                    assert(rest[i] == e);
                }
            }
            if rest.contains(e) {
                let i = choose|i: int| 0 <= i < rest.len() && rest[i] == e;
                assert(emails[i] == e);
            }
            if kept_rest.contains(e) {
                let i = choose|i: int| 0 <= i < kept_rest.len() && kept_rest[i] == e;
                assert(kept[i] == e);
            }
            if grows {
                assert(kept[kept.len() - 1] == last);
            }
            if kept.contains(e) {
                let i = choose|i: int| 0 <= i < kept.len() && kept[i] == e;
                if i < kept_rest.len() {
                    assert(kept_rest[i] == e);
                }
            }
        }
        assert forall|i: int, j: int| 0 <= i < kept.len() && 0 <= j < kept.len() && i != j implies kept[i]
            != kept[j] by {
            if i < kept_rest.len() {
                assert(kept_rest.contains(kept[i]));
            }
            if j < kept_rest.len() {
                assert(kept_rest.contains(kept[j]));
            }
        }
    }
}

/// Sending a batch a second time sends nothing. The first send left no
/// conflict, so none of the addresses has an account. If every invitation
/// that was open at the first send (`invited`) is still open at the second
/// (`later`), and so is every invitation that the first send inserted, then
/// the second send inserts nothing and writes no stream entry: its count is
/// zero, and no invitation is announced twice.
pub proof fn second_send_inserts_nothing(
    emails: Seq<Seq<char>>,
    roles: Seq<Role>,
    invited: Seq<Seq<char>>,
    later: Seq<Seq<char>>,
)
    requires
        forall|e: Seq<char>| invited.contains(e) ==> later.contains(e),
        forall|e: Seq<char>| not_yet_invited(emails, invited).contains(e) ==> later.contains(e),
    ensures
        batch(emails, roles, Seq::empty(), later) == Ok::<Seq<NewInvitationView>, AppErrorView>(
            Seq::empty(),
        ),
{
    not_yet_invited_members(emails, invited);
    not_yet_invited_members(emails, later);
    let again = not_yet_invited(emails, later);
    if again.len() > 0 {
        let e = again[0];
        assert(again.contains(e));
        assert(emails.contains(e) && !later.contains(e));
        if !invited.contains(e) {
            assert(not_yet_invited(emails, invited).contains(e));
        }
        assert(later.contains(e));
    }
    assert(invitations_for(again, roles) =~= Seq::empty());
}

/// No two invitations of `table` that are open at `now` go to one address.
pub open spec fn one_open_per_address(table: Seq<InvitationView>, now: i64) -> bool {
    forall|i: int, j: int|
        0 <= i < j < table.len() && open_at(table[i], now) && open_at(table[j], now)
            ==> table[i].email != table[j].email
}

/// Whether `table` holds an invitation to `email` that is open at `now`.
pub open spec fn has_open(table: Seq<InvitationView>, email: Seq<char>, now: i64) -> bool {
    exists|i: int| 0 <= i < table.len() && open_at(table[i], now) && table[i].email == email
}

/// A batch never gives an address a second open invitation. `table` are the
/// invitations before the batch, with at most one open invitation for each
/// address; `invited` names every address of the batch that has one;
/// `inserted` are the invitations that the persistence layer made of the
/// batch's rows. Then the table with them has still at most one open
/// invitation for each address.
pub proof fn batch_keeps_one_open_per_address(
    table: Seq<InvitationView>,
    emails: Seq<Seq<char>>,
    invited: Seq<Seq<char>>,
    inserted: Seq<InvitationView>,
    now: i64,
)
    requires
        one_open_per_address(table, now),
        forall|e: Seq<char>| emails.contains(e) && has_open(table, e, now) ==> invited.contains(e),
        inserted.len() == not_yet_invited(emails, invited).len(),
        forall|k: int|
            0 <= k < inserted.len() ==> (#[trigger] inserted[k]).email == not_yet_invited(
                emails,
                invited,
            )[k],
    ensures
        one_open_per_address(table + inserted, now),
{
    let kept = not_yet_invited(emails, invited);
    let all = table + inserted;
    not_yet_invited_members(emails, invited);
    assert forall|i: int, j: int|
        0 <= i < j < all.len() && open_at(all[i], now) && open_at(all[j], now) implies all[i].email
        != all[j].email by {
        if j >= table.len() {
            let k = j - table.len();
            assert(all[j] == inserted[k]);
            assert(all[j].email == kept[k]);
            assert(kept.contains(kept[k]));
            assert(emails.contains(kept[k]) && !invited.contains(kept[k]));
            if i >= table.len() {
                let h = i - table.len();
                assert(all[i] == inserted[h]);
                assert(all[i].email == kept[h]);
                assert(kept[h] != kept[k]);
            } else {
                assert(all[i] == table[i]);
                if table[i].email == kept[k] {
                    assert(has_open(table, kept[k], now));
                }
            }
        } else {
            assert(all[i] == table[i]);
            assert(all[j] == table[j]);
        }
    }
}

/// One registered address refuses the whole batch, whatever else it holds:
/// nothing is inserted, so nothing is announced.
pub proof fn conflict_refuses_whole_batch(
    emails: Seq<Seq<char>>,
    roles: Seq<Role>,
    registered: Seq<Seq<char>>,
    invited: Seq<Seq<char>>,
)
    requires
        registered.len() > 0,
    ensures
        batch(emails, roles, registered, invited) == Err::<Seq<NewInvitationView>, AppErrorView>(
            conflict(registered),
        ),
{
}

/// The worker reads from a stream entry the invitation that the producer
/// wrote into it: every work item stands for the one invitation that was
/// inserted with it.
pub proof fn worker_reads_what_was_enqueued(
    invitation: InvitationView,
    sender_first_name: Seq<char>,
    sender_last_name: Seq<char>,
    entry_id: Seq<char>,
)
    ensures
        work_item(
            StreamEntryView {
                id: entry_id,
                fields: entry_fields(invitation, sender_first_name, sender_last_name),
            },
        ) == (WorkItemView {
            entry_id,
            id: hyphenated(invitation.id),
            receiver: invitation.email,
            sender_first_name,
            sender_last_name,
        }),
{
    field_names_differ();
    let fields = entry_fields(invitation, sender_first_name, sender_last_name);
    let three = fields.drop_last();
    let two = three.drop_last();
    let one = two.drop_last();
    assert(three.len() == 3 && two.len() == 2 && one.len() == 1);
    assert(fields.last().name == "sender_last_name"@);
    assert(three.last().name == "sender_first_name"@);
    assert(two.last().name == "receiver"@);
    assert(one.last().name == "id"@);
    assert(one.drop_last().len() == 0);
    assert(field_value(one, "id"@) == hyphenated(invitation.id));
    assert(field_value(two, "id"@) == hyphenated(invitation.id));
    assert(field_value(three, "id"@) == hyphenated(invitation.id));
    assert(field_value(two, "receiver"@) == invitation.email);
    assert(field_value(three, "receiver"@) == invitation.email);
    assert(field_value(three, "sender_first_name"@) == sender_first_name);
}

/// What is left of `value` when its last `digits` hexadecimal digits are
/// taken away.
pub open spec fn without_digits(value: nat, digits: nat) -> nat
    decreases digits,
{
    if digits == 0 {
        value
    } else {
        without_digits(value / 16, (digits - 1) as nat)
    }
}

/// Sixteen to the power of `digits`.
pub open spec fn sixteen_to(digits: nat) -> nat
    decreases digits,
{
    if digits == 0 {
        1
    } else {
        16 * sixteen_to((digits - 1) as nat)
    }
}

proof fn hex_has_its_digits(value: nat, digits: nat)
    ensures
        hex(value, digits).len() == digits,
    decreases digits,
{
    if digits > 0 {
        hex_has_its_digits(value / 16, (digits - 1) as nat);
    }
}

proof fn hex_tells_values_apart(a: nat, b: nat, digits: nat)
    requires
        hex(a, digits) == hex(b, digits),
        without_digits(a, digits) == without_digits(b, digits),
    ensures
        a == b,
    decreases digits,
{
    if digits > 0 {
        let rest = (digits - 1) as nat;
        let left = hex(a / 16, rest).push(hex_digit(a % 16));
        let right = hex(b / 16, rest).push(hex_digit(b % 16));
        assert(left.last() == right.last());
        assert(left.drop_last() == hex(a / 16, rest));
        assert(right.drop_last() == hex(b / 16, rest));
        assert(a % 16 == b % 16);
        hex_tells_values_apart(a / 16, b / 16, rest);
    }
}

proof fn small_value_has_no_more_digits(value: nat, digits: nat)
    requires
        value < sixteen_to(digits),
    ensures
        without_digits(value, digits) == 0,
    decreases digits,
{
    if digits > 0 {
        small_value_has_no_more_digits(value / 16, (digits - 1) as nat);
    }
}

proof fn identifier_has_32_digits(id: u128)
    ensures
        (id as nat) < sixteen_to(32),
{
    reveal_with_fuel(sixteen_to, 9);
    assert(sixteen_to(8) == 0x1_0000_0000);
    assert(sixteen_to(16) == 0x1_0000_0000_0000_0000);
    assert(sixteen_to(24) == 0x1_0000_0000_0000_0000_0000_0000);
    assert(sixteen_to(32) == 0xffff_ffff_ffff_ffff_ffff_ffff_ffff_ffff + 1);
}

/// Two identifiers have one text form only if they are one identifier: no
/// two invitations are announced under the same `id`.
pub proof fn distinct_ids_have_distinct_texts(a: u128, b: u128)
    requires
        hyphenated(a) == hyphenated(b),
    ensures
        a == b,
{
    let left = hex(a as nat, 32);
    let right = hex(b as nat, 32);
    hex_has_its_digits(a as nat, 32);
    hex_has_its_digits(b as nat, 32);
    assert forall|i: int| 0 <= i < 32 implies left[i] == right[i] by {
        let at = if i < 8 {
            i
        } else if i < 12 {
            i + 1
        } else if i < 16 {
            i + 2
        } else if i < 20 {
            i + 3
        } else {
            i + 4
        };
        assert(hyphenated(a)[at] == left[i]);
        assert(hyphenated(b)[at] == right[i]);
    }
    assert(left =~= right);
    identifier_has_32_digits(a);
    identifier_has_32_digits(b);
    small_value_has_no_more_digits(a as nat, 32);
    small_value_has_no_more_digits(b as nat, 32);
    hex_tells_values_apart(a as nat, b as nat, 32);
}

/// Invitations with different identifiers are announced under different
/// `id` fields: the worker never reads two of them as one, whoever sent
/// them and whatever identifiers the stream gave their entries.
pub proof fn distinct_invitations_are_announced_apart(
    first: InvitationView,
    second: InvitationView,
    sender_first_name: Seq<char>,
    sender_last_name: Seq<char>,
    first_entry: Seq<char>,
    second_entry: Seq<char>,
)
    requires
        first.id != second.id,
    ensures
        work_item(
            StreamEntryView {
                id: first_entry,
                fields: entry_fields(first, sender_first_name, sender_last_name),
            },
        ).id != work_item(
            StreamEntryView {
                id: second_entry,
                fields: entry_fields(second, sender_first_name, sender_last_name),
            },
        ).id,
{
    worker_reads_what_was_enqueued(first, sender_first_name, sender_last_name, first_entry);
    worker_reads_what_was_enqueued(second, sender_first_name, sender_last_name, second_entry);
    if hyphenated(first.id) == hyphenated(second.id) {
        distinct_ids_have_distinct_texts(first.id, second.id);
    }
}

} // verus!
