//! The seven operations. Each takes the accounts it works on: the caller's
//! key and the caller's session slot (empty until a session is created), and
//! the current time as read by the host.
use crate::machine::{
    cancel_result, check_deadline, check_in_result, close_result, commit, commits, confirm_result,
    expire_result, owned, panic_result, ping_result,
};
use crate::session::{AlivePingError, EventType, Pubkey, SafetySession, SafetyStatus};
use vstd::prelude::*;

verus! {

/// Accounts of `start_check_in`; `bump` is the nonce of the slot's address.
pub struct StartCheckIn {
    pub user: Pubkey,
    pub session: Option<SafetySession>,
    pub bump: u8,
}

/// Accounts of `trigger_panic`; `bump` is the nonce of the slot's address.
pub struct TriggerPanic {
    pub user: Pubkey,
    pub session: Option<SafetySession>,
    pub bump: u8,
}

pub struct ConfirmSafe {
    pub user: Pubkey,
    pub session: Option<SafetySession>,
}

pub struct ExpireCheckIn {
    pub user: Pubkey,
    pub session: Option<SafetySession>,
}

pub struct UpdateLastPing {
    pub user: Pubkey,
    pub session: Option<SafetySession>,
}

pub struct CloseSession {
    pub user: Pubkey,
    pub session: Option<SafetySession>,
}

pub struct CancelCheckIn {
    pub user: Pubkey,
    pub session: Option<SafetySession>,
}

/// Opens a timed check-in for the caller, due at `deadline`.
pub fn start_check_in(ctx: &mut StartCheckIn, now: i64, deadline: i64, context_hash: [u8; 32]) -> (r: Result<
    (),
    AlivePingError,
>)
    ensures
        final(ctx).user == old(ctx).user,
        final(ctx).bump == old(ctx).bump,
        commits(
            old(ctx).session,
            final(ctx).session,
            r,
            check_in_result(old(ctx).session, old(ctx).user, old(ctx).bump, now, deadline, context_hash),
        ),
{
    if ctx.session.is_some() {
        return Err(AlivePingError::SessionExists);
    }
    match check_deadline(now, deadline) {
        Err(e) => Err(e),
        Ok(()) => {
            let s = SafetySession {
                user: ctx.user,
                start_time: now,
                deadline,
                last_ping: now,
                status: SafetyStatus::Active,
                event_type: EventType::CheckIn,
                context_hash,
                bump: ctx.bump,
            };
            commit(&mut ctx.session, Ok(s))
        },
    }
}

/// Raises a panic alarm for the caller as a new session, already past its deadline.
pub fn trigger_panic(ctx: &mut TriggerPanic, now: i64, context_hash: [u8; 32]) -> (r: Result<
    (),
    AlivePingError,
>)
    ensures
        final(ctx).user == old(ctx).user,
        final(ctx).bump == old(ctx).bump,
        commits(
            old(ctx).session,
            final(ctx).session,
            r,
            panic_result(old(ctx).session, old(ctx).user, old(ctx).bump, now, context_hash),
        ),
{
    if ctx.session.is_some() {
        return Err(AlivePingError::SessionExists);
    }
    let s = SafetySession {
        user: ctx.user,
        start_time: now,
        deadline: now,
        last_ping: now,
        status: SafetyStatus::Panic,
        event_type: EventType::Panic,
        context_hash,
        bump: ctx.bump,
    };
    commit(&mut ctx.session, Ok(s))
}

/// Ends the caller's session from any status but `Closed`.
pub fn close_session(ctx: &mut CloseSession, now: i64) -> (r: Result<(), AlivePingError>)
    ensures
        final(ctx).user == old(ctx).user,
        commits(old(ctx).session, final(ctx).session, r, close_result(old(ctx).session, old(ctx).user, now)),
{
    let outcome = match owned(&ctx.session, &ctx.user) {
        Err(e) => Err(e),
        Ok(s) => match s.status {
            SafetyStatus::Closed => Err(AlivePingError::NotActive),
            _ => Ok(SafetySession { status: SafetyStatus::Closed, last_ping: now, ..s }),
        },
    };
    commit(&mut ctx.session, outcome)
}

/// Resolves the caller's active check-in as safe.
pub fn confirm_safe(ctx: &mut ConfirmSafe, now: i64) -> (r: Result<(), AlivePingError>)
    ensures
        final(ctx).user == old(ctx).user,
        commits(old(ctx).session, final(ctx).session, r, confirm_result(old(ctx).session, old(ctx).user, now)),
{
    let outcome = leave_active(&ctx.session, &ctx.user, now, SafetyStatus::Confirmed);
    commit(&mut ctx.session, outcome)
}

/// Withdraws the caller's active check-in.
pub fn cancel_check_in(ctx: &mut CancelCheckIn, now: i64) -> (r: Result<(), AlivePingError>)
    ensures
        final(ctx).user == old(ctx).user,
        commits(old(ctx).session, final(ctx).session, r, cancel_result(old(ctx).session, old(ctx).user, now)),
{
    let outcome = leave_active(&ctx.session, &ctx.user, now, SafetyStatus::Closed);
    commit(&mut ctx.session, outcome)
}

/// Asserts that the caller's active check-in went unanswered past its deadline.
pub fn expire_check_in(ctx: &mut ExpireCheckIn, now: i64) -> (r: Result<(), AlivePingError>)
    ensures
        final(ctx).user == old(ctx).user,
        commits(old(ctx).session, final(ctx).session, r, expire_result(old(ctx).session, old(ctx).user, now)),
{
    let outcome = match owned(&ctx.session, &ctx.user) {
        Err(e) => Err(e),
        Ok(s) => if s.status != SafetyStatus::Active {
            Err(AlivePingError::NotActive)
        } else if now < s.deadline {
            Err(AlivePingError::DeadlineNotReached)
        } else {
            Ok(SafetySession { status: SafetyStatus::Expired, last_ping: now, ..s })
        },
    };
    commit(&mut ctx.session, outcome)
}

/// Records a sign of life on the caller's active check-in; its status stays `Active`.
pub fn update_last_ping(ctx: &mut UpdateLastPing, now: i64) -> (r: Result<(), AlivePingError>)
    ensures
        final(ctx).user == old(ctx).user,
        commits(old(ctx).session, final(ctx).session, r, ping_result(old(ctx).session, old(ctx).user, now)),
{
    let outcome = leave_active(&ctx.session, &ctx.user, now, SafetyStatus::Active);
    commit(&mut ctx.session, outcome)
}

/// The owner-only move out of `Active` into `to`, touched at `now`.
fn leave_active(slot: &Option<SafetySession>, user: &Pubkey, now: i64, to: SafetyStatus) -> (r: Result<
    SafetySession,
    AlivePingError,
>)
    ensures
        r == crate::machine::from_active_result(*slot, *user, now, to),
{
    match owned(slot, user) {
        Err(e) => Err(e),
        Ok(s) => if s.status == SafetyStatus::Active {
            Ok(SafetySession { status: to, last_ping: now, ..s })
        } else {
            Err(AlivePingError::NotActive)
        },
    }
}

} // verus!
