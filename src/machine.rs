//! The session state machine: for a slot that holds a user's session or is
//! empty, the caller, the current time and the requested operation, what the
//! slot holds afterwards or why the operation is rejected.
use crate::session::{AlivePingError, EventType, Pubkey, SafetySession, SafetyStatus, MAX_CHECK_IN_SECONDS};
use vstd::prelude::*;

verus! {

/// The invariants of a stored session: its deadline fits how it was
/// created, and it has not been touched before it started.
pub open spec fn session_wf(s: SafetySession) -> bool {
    &&& s.last_ping >= s.start_time
    &&& match s.event_type {
        EventType::CheckIn => s.start_time < s.deadline && s.deadline <= s.start_time + MAX_CHECK_IN_SECONDS,
        EventType::Panic => s.deadline == s.start_time,
    }
}

/// The owner guard shared by every operation on an existing session:
/// an empty slot is `NotFound`, another user's session `Unauthorized`.
pub open spec fn owned_by(slot: Option<SafetySession>, user: Pubkey) -> Result<SafetySession, AlivePingError> {
    match slot {
        None => Err(AlivePingError::NotFound),
        Some(s) => if s.user.same(user) {
            Ok(s)
        } else {
            Err(AlivePingError::Unauthorized)
        },
    }
}

/// `s` moved to `status`, touched at `now`; every other field is kept.
pub open spec fn moved(s: SafetySession, status: SafetyStatus, now: i64) -> SafetySession {
    SafetySession { status, last_ping: now, ..s }
}

/// Is `deadline` inside the check-in window that opens at `now`?
pub open spec fn deadline_in_window(now: i64, deadline: i64) -> bool {
    now < deadline && deadline <= now + MAX_CHECK_IN_SECONDS
}

/// The session created by a check-in, or why it is refused.
pub open spec fn check_in_result(
    slot: Option<SafetySession>,
    user: Pubkey,
    bump: u8,
    now: i64,
    deadline: i64,
    context_hash: [u8; 32],
) -> Result<SafetySession, AlivePingError> {
    if slot is Some {
        Err(AlivePingError::SessionExists)
    } else if deadline <= now {
        Err(AlivePingError::InvalidDeadline)
    } else if deadline > now + MAX_CHECK_IN_SECONDS {
        Err(AlivePingError::DeadlineTooFar)
    } else {
        Ok(
            SafetySession {
                user,
                start_time: now,
                deadline,
                last_ping: now,
                status: SafetyStatus::Active,
                event_type: EventType::CheckIn,
                context_hash,
                bump,
            },
        )
    }
}

/// The session created by a panic alarm, or why it is refused.
pub open spec fn panic_result(
    slot: Option<SafetySession>,
    user: Pubkey,
    bump: u8,
    now: i64,
    context_hash: [u8; 32],
) -> Result<SafetySession, AlivePingError> {
    if slot is Some {
        Err(AlivePingError::SessionExists)
    } else {
        Ok(
            SafetySession {
                user,
                start_time: now,
                deadline: now,
                last_ping: now,
                status: SafetyStatus::Panic,
                event_type: EventType::Panic,
                context_hash,
                bump,
            },
        )
    }
}

/// An owner-only move out of `Active` into `to`.
pub open spec fn from_active_result(
    slot: Option<SafetySession>,
    user: Pubkey,
    now: i64,
    to: SafetyStatus,
) -> Result<SafetySession, AlivePingError> {
    match owned_by(slot, user) {
        Err(e) => Err(e),
        Ok(s) => if s.status == SafetyStatus::Active {
            Ok(moved(s, to, now))
        } else {
            Err(AlivePingError::NotActive)
        },
    }
}

pub open spec fn confirm_result(slot: Option<SafetySession>, user: Pubkey, now: i64) -> Result<SafetySession, AlivePingError> {
    from_active_result(slot, user, now, SafetyStatus::Confirmed)
}

pub open spec fn cancel_result(slot: Option<SafetySession>, user: Pubkey, now: i64) -> Result<SafetySession, AlivePingError> {
    from_active_result(slot, user, now, SafetyStatus::Closed)
}

pub open spec fn ping_result(slot: Option<SafetySession>, user: Pubkey, now: i64) -> Result<SafetySession, AlivePingError> {
    from_active_result(slot, user, now, SafetyStatus::Active)
}

/// Expiry: an owner-only move out of `Active` once `now` has reached the deadline.
pub open spec fn expire_result(slot: Option<SafetySession>, user: Pubkey, now: i64) -> Result<SafetySession, AlivePingError> {
    match owned_by(slot, user) {
        Err(e) => Err(e),
        Ok(s) => if s.status != SafetyStatus::Active {
            Err(AlivePingError::NotActive)
        } else if now < s.deadline {
            Err(AlivePingError::DeadlineNotReached)
        } else {
            Ok(moved(s, SafetyStatus::Expired, now))
        },
    }
}

/// The statuses that `close_session` accepts: all but `Closed`.
pub open spec fn closable(status: SafetyStatus) -> bool {
    status != SafetyStatus::Closed
}

pub open spec fn close_result(slot: Option<SafetySession>, user: Pubkey, now: i64) -> Result<SafetySession, AlivePingError> {
    match owned_by(slot, user) {
        Err(e) => Err(e),
        Ok(s) => if closable(s.status) {
            Ok(moved(s, SafetyStatus::Closed, now))
        } else {
            Err(AlivePingError::NotActive)
        },
    }
}

/// How an operation's outcome lands on the slot: a new session is stored and
/// `Ok` returned, or the error is returned and the slot is left as it was.
pub open spec fn commits(
    before: Option<SafetySession>,
    after: Option<SafetySession>,
    r: Result<(), AlivePingError>,
    outcome: Result<SafetySession, AlivePingError>,
) -> bool {
    match outcome {
        Ok(s) => r is Ok && after == Some(s),
        Err(e) => r == Err::<(), AlivePingError>(e) && after == before,
    }
}

/// Runs the owner guard.
pub fn owned(slot: &Option<SafetySession>, user: &Pubkey) -> (r: Result<SafetySession, AlivePingError>)
    ensures
        r == owned_by(*slot, *user),
{
    match slot {
        None => Err(AlivePingError::NotFound),
        Some(s) => if s.user.matches(user) {
            Ok(*s)
        } else {
            Err(AlivePingError::Unauthorized)
        },
    }
}

/// Checks a requested deadline against the window that opens at `now`.
pub fn check_deadline(now: i64, deadline: i64) -> (r: Result<(), AlivePingError>)
    ensures
        r is Ok <==> deadline_in_window(now, deadline),
        r == Err::<(), AlivePingError>(AlivePingError::InvalidDeadline) <==> deadline <= now,
        r == Err::<(), AlivePingError>(AlivePingError::DeadlineTooFar) <==> (now < deadline && deadline
            > now + MAX_CHECK_IN_SECONDS),
{
    if deadline <= now {
        Err(AlivePingError::InvalidDeadline)
    } else if now <= i64::MAX - MAX_CHECK_IN_SECONDS && deadline > now + MAX_CHECK_IN_SECONDS {
        Err(AlivePingError::DeadlineTooFar)
    } else {
        Ok(())
    }
}

/// Stores `outcome` in `slot` when it is a session, and reports it.
pub fn commit(slot: &mut Option<SafetySession>, outcome: Result<SafetySession, AlivePingError>) -> (r: Result<(), AlivePingError>)
    ensures
        commits(*old(slot), *final(slot), r, outcome),
{
    match outcome {
        Ok(s) => {
            *slot = Some(s);
            Ok(())
        },
        Err(e) => Err(e),
    }
}

} // verus!
