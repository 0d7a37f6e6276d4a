use vstd::prelude::*;

verus! {

/// The longest a check-in may run, in seconds: 24 hours.
pub const MAX_CHECK_IN_SECONDS: i64 = 86400;

/// A caller's 256-bit account key.
#[derive(Clone, Copy, Debug)]
pub struct Pubkey {
    pub bytes: [u8; 32],
}

impl Pubkey {
    /// Two keys name the same identity when their bytes agree.
    pub open spec fn same(self, other: Pubkey) -> bool {
        self.bytes@ == other.bytes@
    }

    pub fn new(bytes: [u8; 32]) -> (r: Pubkey)
        ensures
            r.bytes@ == bytes@,
    {
        Pubkey { bytes }
    }

    /// Byte-wise comparison of two keys.
    pub fn matches(&self, other: &Pubkey) -> (r: bool)
        ensures
            r == self.same(*other),
    {
        let mut i: usize = 0;
        while i < 32
            invariant
                0 <= i <= 32,
                self.bytes@.len() == 32,
                other.bytes@.len() == 32,
                forall|j: int| 0 <= j < i ==> self.bytes@[j] == other.bytes@[j],
            decreases 32 - i,
        {
            if self.bytes[i] != other.bytes[i] {
                return false;
            }
            i = i + 1;
        }
        assert(self.bytes@ =~= other.bytes@);
        true
    }
}


/// Lifecycle state of a session. `Closed` is terminal.
#[derive(Clone, Copy, Debug, PartialEq, Eq, Structural)]
pub enum SafetyStatus {
    Active,
    Confirmed,
    Expired,
    Panic,
    Closed,
}

/// Which operation created a session.
#[derive(Clone, Copy, Debug, PartialEq, Eq, Structural)]
pub enum EventType {
    CheckIn,
    Panic,
}

/// Why an operation was rejected. A rejected operation changes nothing.
#[derive(Clone, Copy, Debug, PartialEq, Eq, Structural)]
pub enum AlivePingError {
    /// The session's status does not admit the operation.
    NotActive,
    /// Expiry was asserted before the deadline.
    DeadlineNotReached,
    /// The caller is not the session's owner.
    Unauthorized,
    /// The deadline is not strictly after the current time.
    InvalidDeadline,
    /// The deadline lies more than 24 hours ahead.
    DeadlineTooFar,
    /// A session already exists for the caller.
    SessionExists,
    /// A stored status or event byte names no known value.
    InvalidState,
    /// No session exists for the caller.
    NotFound,
}

/// The one session record of a user.
#[derive(Clone, Copy, Debug)]
pub struct SafetySession {
    pub user: Pubkey,
    pub start_time: i64,
    pub deadline: i64,
    pub last_ping: i64,
    pub status: SafetyStatus,
    pub event_type: EventType,
    pub context_hash: [u8; 32],
    /// Address-derivation nonce; not part of the session's business state.
    pub bump: u8,
}

impl SafetyStatus {
    /// The status byte of the stored record layout.
    pub open spec fn byte_spec(self) -> u8 {
        match self {
            SafetyStatus::Active => 0,
            SafetyStatus::Confirmed => 1,
            SafetyStatus::Expired => 2,
            SafetyStatus::Panic => 3,
            SafetyStatus::Closed => 4,
        }
    }

    pub fn to_byte(self) -> (r: u8)
        ensures
            r == self.byte_spec(),
    {
        match self {
            SafetyStatus::Active => 0,
            SafetyStatus::Confirmed => 1,
            SafetyStatus::Expired => 2,
            SafetyStatus::Panic => 3,
            SafetyStatus::Closed => 4,
        }
    }

    /// Reads a stored status byte; bytes past 4 are `InvalidState`.
    pub fn from_byte(b: u8) -> (r: Result<SafetyStatus, AlivePingError>)
        ensures
            match r {
                Ok(st) => st.byte_spec() == b,
                Err(e) => b > 4 && e == AlivePingError::InvalidState,
            },
    {
        match b {
            0 => Ok(SafetyStatus::Active),
            1 => Ok(SafetyStatus::Confirmed),
            2 => Ok(SafetyStatus::Expired),
            3 => Ok(SafetyStatus::Panic),
            4 => Ok(SafetyStatus::Closed),
            _ => Err(AlivePingError::InvalidState),
        }
    }
}

impl EventType {
    /// The event byte of the stored record layout.
    pub open spec fn byte_spec(self) -> u8 {
        match self {
            EventType::CheckIn => 0,
            EventType::Panic => 1,
        }
    }

    pub fn to_byte(self) -> (r: u8)
        ensures
            r == self.byte_spec(),
    {
        match self {
            EventType::CheckIn => 0,
            EventType::Panic => 1,
        }
    }

    /// Reads a stored event byte; bytes past 1 are `InvalidState`.
    pub fn from_byte(b: u8) -> (r: Result<EventType, AlivePingError>)
        ensures
            match r {
                Ok(ev) => ev.byte_spec() == b,
                Err(e) => b > 1 && e == AlivePingError::InvalidState,
            },
    {
        match b {
            0 => Ok(EventType::CheckIn),
            1 => Ok(EventType::Panic),
            _ => Err(AlivePingError::InvalidState),
        }
    }
}

} // verus!
