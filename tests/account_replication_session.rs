use argolens::account_replicator::{
    AccountReplicator, Halt, Phase, ReplicatorAction, ReplicatorEvent,
};
use argolens::accounts::{AccountNotification, AccountTable, SnapshotAccount};
use argolens::store::Table;

fn note(address: &str, slot: u64, data: Option<Vec<u8>>) -> AccountNotification {
    AccountNotification {
        address: address.to_string(),
        slot,
        data,
        lamports: 1,
        owner: "O".to_string(),
        executable: false,
        rent_epoch: 0,
    }
}

#[test]
fn replicator_bootstraps_then_streams_until_closed() {
    let mut t: AccountTable = Table::new();
    let mut r = AccountReplicator::new();
    assert_eq!(r.phase, Phase::AwaitingSlot);
    let a = r.on_event(&mut t, ReplicatorEvent::SlotFetched(Some(10)));
    assert!(matches!(a, ReplicatorAction::FetchSnapshot));
    assert_eq!(r.phase, Phase::AwaitingSnapshot { slot: 10 });
    let snapshot = vec![SnapshotAccount { address: "A".to_string(), data: vec![10] }];
    let batches = match r.on_event(&mut t, ReplicatorEvent::SnapshotFetched(Some(snapshot))) {
        ReplicatorAction::LoadThenSubscribe(b) => b,
        _ => panic!("expected the snapshot batches"),
    };
    assert_eq!(batches.len(), 1);
    assert_eq!(batches[0][0].slot, 10);
    for b in batches {
        t.upsert_batch(b);
    }
    assert_eq!(r.phase, Phase::Subscribing);
    assert!(matches!(
        r.on_event(&mut t, ReplicatorEvent::Subscribed(true)),
        ReplicatorAction::Receive { applied: false }
    ));
    assert!(matches!(
        r.on_event(&mut t, ReplicatorEvent::Notification(note("A", 5, None))),
        ReplicatorAction::Receive { applied: false }
    ));
    assert_eq!(t.get(&"A".to_string()).unwrap().slot, 10);
    assert!(matches!(
        r.on_event(&mut t, ReplicatorEvent::Notification(note("A", 5, Some(vec![5])))),
        ReplicatorAction::Receive { applied: true }
    ));
    assert_eq!(t.get(&"A".to_string()).unwrap().data, vec![5]);
    assert!(matches!(
        r.on_event(&mut t, ReplicatorEvent::StreamClosed),
        ReplicatorAction::Stop(Halt::StreamClosed)
    ));
    assert_eq!(r.phase, Phase::Halted(Halt::StreamClosed));
    assert!(matches!(
        r.on_event(&mut t, ReplicatorEvent::Notification(note("B", 6, Some(vec![6])))),
        ReplicatorAction::Ignore
    ));
    assert!(!t.contains(&"B".to_string()));
}

#[test]
fn bootstrap_failures_are_fatal() {
    let mut t: AccountTable = Table::new();
    let mut r = AccountReplicator::new();
    assert!(matches!(
        r.on_event(&mut t, ReplicatorEvent::SlotFetched(None)),
        ReplicatorAction::Stop(Halt::SlotUnavailable)
    ));
    let mut r = AccountReplicator::new();
    r.on_event(&mut t, ReplicatorEvent::SlotFetched(Some(3)));
    assert!(matches!(
        r.on_event(&mut t, ReplicatorEvent::SnapshotFetched(None)),
        ReplicatorAction::Stop(Halt::SnapshotUnavailable)
    ));
    assert_eq!(r.phase, Phase::Halted(Halt::SnapshotUnavailable));
    let mut r = AccountReplicator::new();
    r.on_event(&mut t, ReplicatorEvent::SlotFetched(Some(3)));
    r.on_event(&mut t, ReplicatorEvent::SnapshotFetched(Some(Vec::new())));
    assert!(matches!(
        r.on_event(&mut t, ReplicatorEvent::Subscribed(false)),
        ReplicatorAction::Stop(Halt::SubscribeFailed)
    ));
    assert_eq!(t.len(), 0);
}

#[test]
fn event_outside_its_phase_is_ignored() {
    let mut t: AccountTable = Table::new();
    let mut r = AccountReplicator::new();
    assert!(matches!(
        r.on_event(&mut t, ReplicatorEvent::Notification(note("A", 1, Some(vec![1])))),
        ReplicatorAction::Ignore
    ));
    assert_eq!(r.phase, Phase::AwaitingSlot);
    assert_eq!(t.len(), 0);
}
