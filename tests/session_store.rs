use aliveping::session::{AlivePingError, Pubkey, SafetyStatus};
use aliveping::store::{Operation, SessionStore};

const NOW: i64 = 1_000_000;

fn key(b: u8) -> Pubkey {
    Pubkey::new([b; 32])
}

#[test]
fn store_starts_empty() {
    let store = SessionStore::new();
    assert!(store.get(&key(1)).is_none());
}

#[test]
fn store_creates_once_per_identity() {
    let mut store = SessionStore::new();
    let op = Operation::StartCheckIn { deadline: NOW + 3600, context_hash: [5u8; 32] };
    assert_eq!(store.execute(&key(1), op, NOW), Ok(()));
    assert_eq!(store.execute(&key(1), op, NOW + 1), Err(AlivePingError::SessionExists));
    assert_eq!(
        store.execute(&key(1), Operation::TriggerPanic { context_hash: [0u8; 32] }, NOW + 2),
        Err(AlivePingError::SessionExists)
    );
    let s = store.get(&key(1)).unwrap();
    assert_eq!(s.status, SafetyStatus::Active);
    assert_eq!(s.start_time, NOW);
    assert_eq!(s.deadline, NOW + 3600);
    assert_eq!(s.bump, 0);
}

#[test]
fn store_keeps_identities_apart() {
    let mut store = SessionStore::new();
    let op = Operation::StartCheckIn { deadline: NOW + 10, context_hash: [0u8; 32] };
    assert_eq!(store.execute(&key(1), op, NOW), Ok(()));
    assert_eq!(store.execute(&key(2), Operation::TriggerPanic { context_hash: [9u8; 32] }, NOW), Ok(()));
    assert_eq!(store.execute(&key(1), Operation::ConfirmSafe, NOW + 5), Ok(()));
    assert_eq!(store.get(&key(1)).unwrap().status, SafetyStatus::Confirmed);
    let p = store.get(&key(2)).unwrap();
    assert_eq!(p.status, SafetyStatus::Panic);
    assert_eq!(p.context_hash, [9u8; 32]);
    assert!(store.get(&key(3)).is_none());
}

#[test]
fn store_rejection_changes_nothing() {
    let mut store = SessionStore::new();
    assert_eq!(store.execute(&key(4), Operation::CloseSession, NOW), Err(AlivePingError::NotFound));
    assert!(store.get(&key(4)).is_none());
    let bad = Operation::StartCheckIn { deadline: NOW, context_hash: [0u8; 32] };
    assert_eq!(store.execute(&key(4), bad, NOW), Err(AlivePingError::InvalidDeadline));
    let far = Operation::StartCheckIn { deadline: NOW + 86401, context_hash: [0u8; 32] };
    assert_eq!(store.execute(&key(4), far, NOW), Err(AlivePingError::DeadlineTooFar));
    assert!(store.get(&key(4)).is_none());
}

#[test]
fn store_lifecycle_to_closed() {
    let mut store = SessionStore::new();
    let u = key(8);
    let op = Operation::StartCheckIn { deadline: NOW + 3600, context_hash: [1u8; 32] };
    assert_eq!(store.execute(&u, op, NOW), Ok(()));
    assert_eq!(store.execute(&u, Operation::UpdateLastPing, NOW + 1800), Ok(()));
    assert_eq!(store.get(&u).unwrap().last_ping, NOW + 1800);
    assert_eq!(store.execute(&u, Operation::ExpireCheckIn, NOW + 1800), Err(AlivePingError::DeadlineNotReached));
    assert_eq!(store.execute(&u, Operation::ExpireCheckIn, NOW + 3601), Ok(()));
    assert_eq!(store.get(&u).unwrap().status, SafetyStatus::Expired);
    assert_eq!(store.execute(&u, Operation::CancelCheckIn, NOW + 3602), Err(AlivePingError::NotActive));
    assert_eq!(store.execute(&u, Operation::CloseSession, NOW + 3603), Ok(()));
    let s = store.get(&u).unwrap();
    assert_eq!(s.status, SafetyStatus::Closed);
    assert_eq!(s.last_ping, NOW + 3603);
    assert_eq!(store.execute(&u, Operation::CloseSession, NOW + 3604), Err(AlivePingError::NotActive));
}
