//! A keyed store of sessions: at most one per identity, created once, never
//! removed, and each request applied to it atomically.
use crate::machine::{
    cancel_result, check_in_result, close_result, confirm_result, expire_result, panic_result, ping_result,
};
use crate::program::{
    cancel_check_in, close_session, confirm_safe, expire_check_in, start_check_in, trigger_panic,
    update_last_ping, CancelCheckIn, CloseSession, ConfirmSafe, ExpireCheckIn, StartCheckIn, TriggerPanic,
    UpdateLastPing,
};
use crate::session::{AlivePingError, Pubkey, SafetySession};
use vstd::prelude::*;

verus! {

/// The address nonce of records in a keyed store, which needs none.
pub const STORE_BUMP: u8 = 0;

/// A request on the caller's session.
#[derive(Clone, Copy, Debug)]
pub enum Operation {
    StartCheckIn { deadline: i64, context_hash: [u8; 32] },
    TriggerPanic { context_hash: [u8; 32] },
    ConfirmSafe,
    ExpireCheckIn,
    UpdateLastPing,
    CancelCheckIn,
    CloseSession,
}

/// The outcome of `op` requested by `user` at `now` on `slot`.
pub open spec fn step_result(slot: Option<SafetySession>, user: Pubkey, op: Operation, now: i64) -> Result<
    SafetySession,
    AlivePingError,
> {
    match op {
        Operation::StartCheckIn { deadline, context_hash } => check_in_result(
            slot,
            user,
            STORE_BUMP,
            now,
            deadline,
            context_hash,
        ),
        Operation::TriggerPanic { context_hash } => panic_result(slot, user, STORE_BUMP, now, context_hash),
        Operation::ConfirmSafe => confirm_result(slot, user, now),
        Operation::ExpireCheckIn => expire_result(slot, user, now),
        Operation::UpdateLastPing => ping_result(slot, user, now),
        Operation::CancelCheckIn => cancel_result(slot, user, now),
        Operation::CloseSession => close_result(slot, user, now),
    }
}

pub struct SessionStore {
    records: Vec<SafetySession>,
    sessions: Ghost<Map<Seq<u8>, SafetySession>>,
}

impl SessionStore {
    /// The sessions, keyed by their owner's key bytes.
    pub closed spec fn view(&self) -> Map<Seq<u8>, SafetySession> {
        self.sessions@
    }

    /// What the store holds for `user`.
    pub open spec fn slot(&self, user: Pubkey) -> Option<SafetySession> {
        if self@.contains_key(user.bytes@) {
            Some(self@[user.bytes@])
        } else {
            None
        }
    }

    /// The records list each key once, stored under its owner, and nothing else.
    pub closed spec fn wf(&self) -> bool {
        &&& forall|i: int|
            0 <= i < self.records@.len() ==> #[trigger] self.sessions@.contains_key(self.records@[i].user.bytes@)
                && self.sessions@[self.records@[i].user.bytes@] == self.records@[i]
        &&& forall|k: Seq<u8>|
            #[trigger] self.sessions@.contains_key(k) ==> exists|i: int|
                0 <= i < self.records@.len() && #[trigger] self.records@[i].user.bytes@ == k
        &&& forall|i: int, j: int|
            0 <= i < j < self.records@.len() ==> !self.records@[i].user.same(self.records@[j].user)
        &&& forall|k: Seq<u8>| #[trigger] self.sessions@.contains_key(k) ==> self.sessions@[k].user.bytes@ == k
    }

    pub fn new() -> (r: SessionStore)
        ensures
            r.wf(),
            r@ == Map::<Seq<u8>, SafetySession>::empty(),
    {
        SessionStore { records: Vec::new(), sessions: Ghost(Map::empty()) }
    }

    /// The index of `user`'s record, if there is one.
    fn find(&self, user: &Pubkey) -> (r: Option<usize>)
        requires
            self.wf(),
        ensures
            match r {
                Some(i) => i < self.records@.len() && self.records@[i as int].user.same(*user),
                None => !self@.contains_key(user.bytes@),
            },
    {
        let mut i: usize = 0;
        while i < self.records.len()
            invariant
                self.wf(),
                0 <= i <= self.records@.len(),
                forall|j: int| 0 <= j < i ==> !(#[trigger] self.records@[j]).user.same(*user),
            decreases self.records@.len() - i,
        {
            if self.records[i].user.matches(user) {
                return Some(i);
            }
            i = i + 1;
        }
        None
    }

    /// Looks up `user`'s session.
    pub fn get(&self, user: &Pubkey) -> (r: Option<SafetySession>)
        requires
            self.wf(),
        ensures
            r == self.slot(*user),
    {
        match self.find(user) {
            Some(i) => Some(self.records[i]),
            None => None,
        }
    }

    /// Stores `s` under its owner, in place of what was there.
    fn put(&mut self, s: SafetySession)
        requires
            old(self).wf(),
        ensures
            final(self).wf(),
            final(self)@ == old(self)@.insert(s.user.bytes@, s),
    {
        let ghost k = s.user.bytes@;
        match self.find(&s.user) {
            Some(i) => {
                self.records.set(i, s);
                proof {
                    self.sessions@ = self.sessions@.insert(k, s);
                }
                assert forall|k2: Seq<u8>| #[trigger] self.sessions@.contains_key(k2) implies exists|j: int|
                    0 <= j < self.records@.len() && #[trigger] self.records@[j].user.bytes@ == k2 by {
                    if k2 != k {
                        let j = choose|j: int| 0 <= j < old(self).records@.len() && #[trigger] old(self).records@[j].user.bytes@ == k2;
                        assert(self.records@[j].user.bytes@ == k2);
                    } else {
                        assert(self.records@[i as int].user.bytes@ == k2);
                    }
                }
                assert forall|j: int| 0 <= j < self.records@.len() implies #[trigger] self.sessions@.contains_key(
                    self.records@[j].user.bytes@,
                ) && self.sessions@[self.records@[j].user.bytes@] == self.records@[j] by {
                    if j != i {
                        assert(old(self).sessions@.contains_key(old(self).records@[j].user.bytes@));
                        if j < i {
                            assert(!old(self).records@[j].user.same(old(self).records@[i as int].user));
                        } else {
                            assert(!old(self).records@[i as int].user.same(old(self).records@[j].user));
                        }
                    }
                }
                assert forall|a: int, b: int| 0 <= a < b < self.records@.len() implies !self.records@[a].user.same(
                    self.records@[b].user,
                ) by {
                    assert(!old(self).records@[a].user.same(old(self).records@[b].user));
                }
            },
            None => {
                self.records.push(s);
                proof {
                    self.sessions@ = self.sessions@.insert(k, s);
                }
                let ghost n = self.records@.len() - 1;
                assert forall|k2: Seq<u8>| #[trigger] self.sessions@.contains_key(k2) implies exists|j: int|
                    0 <= j < self.records@.len() && #[trigger] self.records@[j].user.bytes@ == k2 by {
                    if k2 != k {
                        let j = choose|j: int| 0 <= j < old(self).records@.len() && #[trigger] old(self).records@[j].user.bytes@ == k2;
                        assert(self.records@[j].user.bytes@ == k2);
                    } else {
                        assert(self.records@[n].user.bytes@ == k2);
                    }
                }
                assert forall|a: int, b: int| 0 <= a < b < self.records@.len() implies !self.records@[a].user.same(
                    self.records@[b].user,
                ) by {
                    if b == n {
                        assert(old(self).sessions@.contains_key(old(self).records@[a].user.bytes@));
                    }
                }
                assert forall|j: int| 0 <= j < self.records@.len() implies #[trigger] self.sessions@.contains_key(
                    self.records@[j].user.bytes@,
                ) && self.sessions@[self.records@[j].user.bytes@] == self.records@[j] by {
                    if j < n {
                        assert(old(self).sessions@.contains_key(old(self).records@[j].user.bytes@));
                    }
                }
            },
        }
    }

    /// Runs `op` for `caller` at `now`: the caller's session is created, moved
    /// or left as it was, and no other session is touched.
    pub fn execute(&mut self, caller: &Pubkey, op: Operation, now: i64) -> (r: Result<(), AlivePingError>)
        requires
            old(self).wf(),
        ensures
            final(self).wf(),
            match step_result(old(self).slot(*caller), *caller, op, now) {
                Ok(s) => r is Ok && final(self)@ == old(self)@.insert(caller.bytes@, s),
                Err(e) => r == Err::<(), AlivePingError>(e) && final(self)@ == old(self)@,
            },
    {
        let slot = self.get(caller);
        let user = *caller;
        let (r, after) = match op {
            Operation::StartCheckIn { deadline, context_hash } => {
                let mut ctx = StartCheckIn { user, session: slot, bump: STORE_BUMP };
                let r = start_check_in(&mut ctx, now, deadline, context_hash);
                (r, ctx.session)
            },
            Operation::TriggerPanic { context_hash } => {
                let mut ctx = TriggerPanic { user, session: slot, bump: STORE_BUMP };
                let r = trigger_panic(&mut ctx, now, context_hash);
                (r, ctx.session)
            },
            Operation::ConfirmSafe => {
                let mut ctx = ConfirmSafe { user, session: slot };
                let r = confirm_safe(&mut ctx, now);
                (r, ctx.session)
            },
            Operation::ExpireCheckIn => {
                let mut ctx = ExpireCheckIn { user, session: slot };
                let r = expire_check_in(&mut ctx, now);
                (r, ctx.session)
            },
            Operation::UpdateLastPing => {
                let mut ctx = UpdateLastPing { user, session: slot };
                let r = update_last_ping(&mut ctx, now);
                (r, ctx.session)
            },
            Operation::CancelCheckIn => {
                let mut ctx = CancelCheckIn { user, session: slot };
                let r = cancel_check_in(&mut ctx, now);
                (r, ctx.session)
            },
            Operation::CloseSession => {
                let mut ctx = CloseSession { user, session: slot };
                let r = close_session(&mut ctx, now);
                (r, ctx.session)
            },
        };
        match r {
            Ok(()) => match after {
                Some(s) => {
                    self.put(s);
                    Ok(())
                },
                None => Err(AlivePingError::NotFound),
            },
            Err(e) => Err(e),
        }
    }
}

} // verus!
