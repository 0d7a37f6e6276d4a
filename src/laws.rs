//! Laws of the state machine, stated over the outcome of each operation.
use crate::machine::{
    cancel_result, check_in_result, close_result, closable, confirm_result, deadline_in_window,
    expire_result, moved, panic_result, ping_result, session_wf,
};
use crate::session::{AlivePingError, Pubkey, SafetySession, SafetyStatus};
use vstd::prelude::*;

verus! {

/// A check-in whose deadline lies in the window succeeds on an empty slot and
/// creates an `Active` session due at that deadline; once the slot holds it,
/// any later check-in or panic for the same user fails with `SessionExists`.
pub proof fn lemma_check_in_once(
    user: Pubkey,
    bump: u8,
    now: i64,
    deadline: i64,
    context_hash: [u8; 32],
    bump2: u8,
    now2: i64,
    deadline2: i64,
    context_hash2: [u8; 32],
)
    requires
        deadline_in_window(now, deadline),
    ensures
        check_in_result(None, user, bump, now, deadline, context_hash) is Ok,
        ({
            let s = check_in_result(None, user, bump, now, deadline, context_hash)->Ok_0;
            &&& s.status == SafetyStatus::Active
            &&& s.deadline == deadline
            &&& s.user == user
            &&& check_in_result(Some(s), user, bump2, now2, deadline2, context_hash2) == Err::<
                SafetySession,
                AlivePingError,
            >(AlivePingError::SessionExists)
            &&& panic_result(Some(s), user, bump2, now2, context_hash2) == Err::<
                SafetySession,
                AlivePingError,
            >(AlivePingError::SessionExists)
        }),
{
}

/// A deadline outside the window is refused on an empty slot: not after
/// `now` with `InvalidDeadline`, more than 24 hours ahead with `DeadlineTooFar`.
pub proof fn lemma_deadline_out_of_window(
    user: Pubkey,
    bump: u8,
    now: i64,
    deadline: i64,
    context_hash: [u8; 32],
)
    requires
        !deadline_in_window(now, deadline),
    ensures
        check_in_result(None, user, bump, now, deadline, context_hash) == Err::<SafetySession, AlivePingError>(
            if deadline <= now {
                AlivePingError::InvalidDeadline
            } else {
                AlivePingError::DeadlineTooFar
            },
        ),
{
}

/// On the owner's `Active` session, expiry before the deadline fails with
/// `DeadlineNotReached`, and at or after it succeeds and sets `Expired`.
pub proof fn lemma_expiry_gate(s: SafetySession, user: Pubkey, now: i64)
    requires
        s.user.same(user),
        s.status == SafetyStatus::Active,
    ensures
        now < s.deadline ==> expire_result(Some(s), user, now) == Err::<SafetySession, AlivePingError>(
            AlivePingError::DeadlineNotReached,
        ),
        now >= s.deadline ==> expire_result(Some(s), user, now) == Ok::<SafetySession, AlivePingError>(
            moved(s, SafetyStatus::Expired, now),
        ),
{
}

/// Every owner-gated operation by someone other than the session's owner fails
/// with `Unauthorized` (and so leaves the session as it was).
pub proof fn lemma_only_owner_mutates(s: SafetySession, caller: Pubkey, now: i64)
    requires
        !s.user.same(caller),
    ensures
        confirm_result(Some(s), caller, now) == Err::<SafetySession, AlivePingError>(AlivePingError::Unauthorized),
        expire_result(Some(s), caller, now) == Err::<SafetySession, AlivePingError>(AlivePingError::Unauthorized),
        ping_result(Some(s), caller, now) == Err::<SafetySession, AlivePingError>(AlivePingError::Unauthorized),
        cancel_result(Some(s), caller, now) == Err::<SafetySession, AlivePingError>(AlivePingError::Unauthorized),
        close_result(Some(s), caller, now) == Err::<SafetySession, AlivePingError>(AlivePingError::Unauthorized),
{
}

/// A `Closed` session admits no operation, whoever calls and whenever.
pub proof fn lemma_closed_is_terminal(
    s: SafetySession,
    caller: Pubkey,
    now: i64,
    bump: u8,
    deadline: i64,
    context_hash: [u8; 32],
)
    requires
        s.status == SafetyStatus::Closed,
    ensures
        check_in_result(Some(s), caller, bump, now, deadline, context_hash) is Err,
        panic_result(Some(s), caller, bump, now, context_hash) is Err,
        confirm_result(Some(s), caller, now) is Err,
        expire_result(Some(s), caller, now) is Err,
        ping_result(Some(s), caller, now) is Err,
        cancel_result(Some(s), caller, now) is Err,
        close_result(Some(s), caller, now) is Err,
{
}

/// Closing the owner's session from `Active`, `Confirmed`, `Expired` or
/// `Panic` lands on `Closed`; closing it again fails with `NotActive`.
pub proof fn lemma_close_once(s: SafetySession, user: Pubkey, now: i64, now2: i64)
    requires
        s.user.same(user),
        s.status != SafetyStatus::Closed,
    ensures
        close_result(Some(s), user, now) is Ok,
        close_result(Some(s), user, now)->Ok_0.status == SafetyStatus::Closed,
        close_result(Some(close_result(Some(s), user, now)->Ok_0), user, now2) == Err::<
            SafetySession,
            AlivePingError,
        >(AlivePingError::NotActive),
{
    assert(closable(s.status));
}

/// Every session an operation yields is well formed and keeps its owner,
/// creation data and context: created sessions from an empty slot, moved
/// ones from a well-formed session touched no earlier than its last ping,
/// which then never goes back.
pub proof fn lemma_outcomes_well_formed(
    slot: Option<SafetySession>,
    user: Pubkey,
    bump: u8,
    now: i64,
    deadline: i64,
    context_hash: [u8; 32],
)
    requires
        slot matches Some(s) ==> session_wf(s) && now >= s.last_ping,
    ensures
        check_in_result(slot, user, bump, now, deadline, context_hash) matches Ok(n) ==> session_wf(n),
        panic_result(slot, user, bump, now, context_hash) matches Ok(n) ==> session_wf(n),
        forall|n: SafetySession|
            #![auto]
            confirm_result(slot, user, now) == Ok::<SafetySession, AlivePingError>(n)
                || expire_result(slot, user, now) == Ok::<SafetySession, AlivePingError>(n)
                || ping_result(slot, user, now) == Ok::<SafetySession, AlivePingError>(n)
                || cancel_result(slot, user, now) == Ok::<SafetySession, AlivePingError>(n)
                || close_result(slot, user, now) == Ok::<SafetySession, AlivePingError>(n) ==> {
                let s = slot->Some_0;
                &&& session_wf(n)
                &&& n.last_ping >= s.last_ping
                &&& n.user == s.user
                &&& n.start_time == s.start_time
                &&& n.deadline == s.deadline
                &&& n.event_type == s.event_type
                &&& n.context_hash == s.context_hash
                &&& n.bump == s.bump
            },
{
}

} // verus!
