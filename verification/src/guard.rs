//! The checks that stand before an operation: is the caller
//! authenticated, and does the caller hold the role.

use crate::error::{outcome_view, AppError, AppErrorView};
use crate::role::{holds, Role};
use crate::security::{authenticate, verdict, Claims, ClaimsView, Presented, PresentedView, TokenType};
use vstd::prelude::*;

verus! {

/// Whether `held` has at least one of `required`.
pub open spec fn any_of(held: Seq<Role>, required: Seq<Role>) -> bool {
    exists|i: int| 0 <= i < required.len() && held.contains(#[trigger] required[i])
}

/// Whether `held` has every one of `required`.
pub open spec fn all_of(held: Seq<Role>, required: Seq<Role>) -> bool {
    forall|i: int| 0 <= i < required.len() ==> held.contains(#[trigger] required[i])
}

/// Lets the caller pass if the claims carry `required`, and refuses with
/// `Forbidden` if they do not. Only the roles written into the token count.
pub fn has_role(claims: &Claims, required: Role) -> (outcome: Result<(), AppError>)
    ensures
        outcome is Ok <==> claims@.roles.contains(required),
        outcome matches Err(e) ==> e@ == AppErrorView::Forbidden,
{
    if holds(&claims.roles, required) {
        Ok(())
    } else {
        Err(AppError::Forbidden)
    }
}

/// Lets the caller pass if the claims carry at least one of `required`, and
/// refuses with `Forbidden` if they carry none.
pub fn has_any_role(claims: &Claims, required: &Vec<Role>) -> (outcome: Result<(), AppError>)
    ensures
        outcome is Ok <==> any_of(claims@.roles, required@),
        outcome matches Err(e) ==> e@ == AppErrorView::Forbidden,
{
    let mut i: usize = 0;
    while i < required.len()
        invariant
            i <= required.len(),
            forall|j: int| 0 <= j < i ==> !claims@.roles.contains(#[trigger] required@[j]),
        decreases required.len() - i,
    {
        if holds(&claims.roles, required[i]) {
            return Ok(());
        }
        i += 1;
    }
    Err(AppError::Forbidden)
}

/// Lets the caller pass if the claims carry every one of `required`, and
/// refuses with `Forbidden` if one is missing.
pub fn has_all_roles(claims: &Claims, required: &Vec<Role>) -> (outcome: Result<(), AppError>)
    ensures
        outcome is Ok <==> all_of(claims@.roles, required@),
        outcome matches Err(e) ==> e@ == AppErrorView::Forbidden,
{
    let mut i: usize = 0;
    while i < required.len()
        invariant
            i <= required.len(),
            forall|j: int| 0 <= j < i ==> claims@.roles.contains(#[trigger] required@[j]),
        decreases required.len() - i,
    {
        if !holds(&claims.roles, required[i]) {
            return Err(AppError::Forbidden);
        }
        i += 1;
    }
    Ok(())
}

/// The verdict on a request to an operation that only holders of `required`
/// may perform: who is not authenticated is told so, who is authenticated
/// without the role is forbidden.
pub open spec fn guarded(presented: PresentedView, now: u64, required: Role) -> Result<
    ClaimsView,
    AppErrorView,
> {
    match verdict(presented, TokenType::Access, now) {
        Ok(claims) => if claims.roles.contains(required) {
            Ok(claims)
        } else {
            Err(AppErrorView::Forbidden)
        },
        Err(e) => Err(e),
    }
}

/// Admits a request to an operation that only holders of `required` may
/// perform: first the access token is checked, then the role.
pub fn authorize(presented: Presented, now: u64, required: Role) -> (outcome: Result<
    Claims,
    AppError,
>)
    ensures
        outcome_view(outcome) == guarded(presented@, now, required),
{
    match authenticate(presented, TokenType::Access, now) {
        Ok(claims) => match has_role(&claims, required) {
            Ok(()) => Ok(claims),
            Err(e) => Err(e),
        },
        Err(e) => Err(e),
    }
}

/// A request passes from unauthenticated over authenticated to authorized
/// and never skips a stage. It is forbidden only where it is authenticated
/// and the role is missing; it is admitted only where it is authenticated
/// with the role, and then as the claims of its token.
pub proof fn forbidden_only_when_authenticated(presented: PresentedView, now: u64, required: Role)
    ensures
        guarded(presented, now, required) == Err::<ClaimsView, AppErrorView>(
            AppErrorView::Forbidden,
        ) <==> (verdict(presented, TokenType::Access, now) matches Ok(claims)
            && !claims.roles.contains(required)),
        guarded(presented, now, required) matches Ok(claims) ==> verdict(
            presented,
            TokenType::Access,
            now,
        ) == Ok::<ClaimsView, AppErrorView>(claims) && claims.roles.contains(required),
        verdict(presented, TokenType::Access, now) matches Err(e) ==> guarded(
            presented,
            now,
            required,
        ) == Err::<ClaimsView, AppErrorView>(e),
{
}

} // verus!
