//! The operations on invitations as their callers meet them: who may
//! begin them, and how they are answered.

use crate::dtos::{InvitationResponse, MessageResponse};
use crate::error::{AppError, AppErrorView};
use crate::guard::has_role;
use crate::invitation::{Invitation, InvitationPayload, InvitationService};
use crate::outbox::{begun, Outbox, OutboxAction};
use crate::role::Role;
use crate::security::Claims;
use crate::text::{decimal, to_decimal, views};
use vstd::prelude::*;

verus! {

/// The sentence that reports how many invitations a batch sent.
pub open spec fn batch_report(sent_count: nat) -> Seq<char> {
    if sent_count == 0 {
        "Все приглашения по указанным email уже были отправлены ранее."@
    } else {
        "Новые приглашения успешно отправлены в кол-ве "@ + decimal(sent_count)
    }
}

/// Begins the sending of a batch of invitations for the caller with these
/// claims. Only an administrator may send invitations: a caller without
/// that role is forbidden before the sending begins, so that nothing is
/// looked up, inserted or appended for such a caller. For an administrator
/// the sending begins in the caller's name.
pub fn send_invitations(claims: &Claims, payload: InvitationPayload) -> (outcome: Result<
    (Outbox, OutboxAction),
    AppError,
>)
    ensures
        outcome is Ok <==> claims@.roles.contains(Role::Admin),
        match outcome {
            Ok(next) => (next.0@, next.1@) == begun(
                claims@.first_name,
                claims@.last_name,
                views(payload.emails@),
                payload.roles@,
            ),
            Err(e) => e@ == AppErrorView::Forbidden,
        },
{
    match has_role(claims, Role::Admin) {
        Ok(()) => Ok(InvitationService::send_invitations(claims, payload)),
        Err(e) => Err(e),
    }
}

/// Answers a batch of invitations: with the number that was sent, or with
/// the remark that all of them had been sent before.
pub fn invitations_sent(sent_count: usize) -> (response: MessageResponse)
    ensures
        response.message@ == batch_report(sent_count as nat),
{
    if sent_count == 0 {
        MessageResponse {
            message: String::from_str(
                "Все приглашения по указанным email уже были отправлены ранее.",
            ),
        }
    } else {
        let mut message = String::from_str("Новые приглашения успешно отправлены в кол-ве ");
        let count = to_decimal(sent_count as u64);
        message.append(count.as_str());
        MessageResponse { message }
    }
}

/// Answers a look at an invitation: the address that is invited, and the
/// identifier of the invitation as the code with which to register.
pub fn get_invitation(invitation: Invitation) -> (response: InvitationResponse)
    ensures
        response.email@ == invitation.email@,
        response.code == invitation.id,
{
    InvitationResponse { email: invitation.email, code: invitation.id }
}

} // verus!
