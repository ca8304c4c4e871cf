use vstd::prelude::*;

use crate::accounts::{
    after_notification, apply_notification, flattened, snapshot_batches, snapshot_records,
    AccountNotification, AccountRecord, AccountTable, SnapshotAccount, SNAPSHOT_CHUNK,
};

verus! {

/// Why account replication stopped.
#[derive(Clone, Copy, Debug, PartialEq, Eq, Structural)]
pub enum Halt {
    /// The ledger height could not be obtained: nothing can be bootstrapped.
    SlotUnavailable,
    /// The snapshot could not be fetched: nothing can be served.
    SnapshotUnavailable,
    /// The live subscription could not be opened.
    SubscribeFailed,
    /// The subscription closed; a supervisor may start replication again.
    StreamClosed,
}

/// Where account replication stands.
#[derive(Clone, Copy, Debug, PartialEq, Eq, Structural)]
pub enum Phase {
    AwaitingSlot,
    AwaitingSnapshot { slot: u64 },
    Subscribing,
    Streaming,
    Halted(Halt),
}

/// What the outside world reported to the replicator.
pub enum ReplicatorEvent {
    /// The current ledger height, `None` where it could not be had.
    SlotFetched(Option<u64>),
    /// The program's accounts, `None` where they could not be had.
    SnapshotFetched(Option<Vec<SnapshotAccount>>),
    /// Whether the subscription was opened.
    Subscribed(bool),
    Notification(AccountNotification),
    StreamClosed,
}

/// What the replicator asks the outside world to do next.
pub enum ReplicatorAction {
    FetchSnapshot,
    /// Write these bulk upserts to the store, in order, then open the subscription.
    LoadThenSubscribe(Vec<Vec<AccountRecord>>),
    /// Wait for the next notification; `applied` says whether the last one was recorded.
    Receive { applied: bool },
    Stop(Halt),
    /// The event does not belong to the current phase and changed nothing.
    Ignore,
}

/// The phase that follows `p` on an event of the given shape, and what it means:
/// bootstrap failures are fatal, a notification keeps the stream going whatever its
/// payload, and the stream's end ends replication.
pub open spec fn next_phase(p: Phase, e: ReplicatorEvent) -> Phase {
    match (p, e) {
        (Phase::AwaitingSlot, ReplicatorEvent::SlotFetched(Some(s))) => Phase::AwaitingSnapshot { slot: s },
        (Phase::AwaitingSlot, ReplicatorEvent::SlotFetched(None)) => Phase::Halted(Halt::SlotUnavailable),
        (Phase::AwaitingSnapshot { .. }, ReplicatorEvent::SnapshotFetched(Some(_))) => Phase::Subscribing,
        (Phase::AwaitingSnapshot { .. }, ReplicatorEvent::SnapshotFetched(None)) => Phase::Halted(
            Halt::SnapshotUnavailable,
        ),
        (Phase::Subscribing, ReplicatorEvent::Subscribed(true)) => Phase::Streaming,
        (Phase::Subscribing, ReplicatorEvent::Subscribed(false)) => Phase::Halted(Halt::SubscribeFailed),
        (Phase::Streaming, ReplicatorEvent::Notification(_)) => Phase::Streaming,
        (Phase::Streaming, ReplicatorEvent::StreamClosed) => Phase::Halted(Halt::StreamClosed),
        _ => p,
    }
}

/// Whether event `e` belongs to phase `p`.
pub open spec fn fits(p: Phase, e: ReplicatorEvent) -> bool {
    match (p, e) {
        (Phase::AwaitingSlot, ReplicatorEvent::SlotFetched(_)) => true,
        (Phase::AwaitingSnapshot { .. }, ReplicatorEvent::SnapshotFetched(_)) => true,
        (Phase::Subscribing, ReplicatorEvent::Subscribed(_)) => true,
        (Phase::Streaming, ReplicatorEvent::Notification(_)) => true,
        (Phase::Streaming, ReplicatorEvent::StreamClosed) => true,
        _ => false,
    }
}

/// The decisions of the account replicator: bootstrap from the ledger height and a
/// snapshot, then follow the subscription until it closes. It starts by asking for
/// the ledger height.
pub struct AccountReplicator {
    pub phase: Phase,
}

impl AccountReplicator {
    pub fn new() -> (r: Self)
        ensures
            r.phase == Phase::AwaitingSlot,
    {
        AccountReplicator { phase: Phase::AwaitingSlot }
    }

    /// Takes one event: moves to `next_phase`, applies a notification to `table`, and
    /// says what to do next. An event outside its phase changes nothing.
    pub fn on_event(&mut self, table: &mut AccountTable, e: ReplicatorEvent) -> (a: ReplicatorAction)
        requires
            old(table).wf(),
        ensures
            final(table).wf(),
            final(self).phase == next_phase(old(self).phase, e),
            !fits(old(self).phase, e) ==> a is Ignore && final(table)@ == old(table)@,
            fits(old(self).phase, e) ==> match e {
                ReplicatorEvent::SlotFetched(Some(_)) => a is FetchSnapshot,
                ReplicatorEvent::SnapshotFetched(Some(accounts)) => a matches ReplicatorAction::LoadThenSubscribe(
                    batches,
                ) && flattened(batches@) == snapshot_records(
                    accounts@,
                    old(self).phase->AwaitingSnapshot_slot,
                ) && (forall|j: int|
                    0 <= j < batches.len() ==> 0 < #[trigger] batches@[j].len() <= SNAPSHOT_CHUNK),
                ReplicatorEvent::Subscribed(true) => a == ReplicatorAction::Receive { applied: false },
                ReplicatorEvent::Notification(n) => a == ReplicatorAction::Receive {
                    applied: n.data is Some,
                } && final(table)@ == after_notification(old(table)@, n),
                _ => a == ReplicatorAction::Stop(final(self).phase->Halted_0),
            },
            !(e is Notification) ==> final(table)@ == old(table)@,
    {
        match (self.phase, e) {
            (Phase::AwaitingSlot, ReplicatorEvent::SlotFetched(Some(s))) => {
                self.phase = Phase::AwaitingSnapshot { slot: s };
                ReplicatorAction::FetchSnapshot
            },
            (Phase::AwaitingSlot, ReplicatorEvent::SlotFetched(None)) => {
                self.phase = Phase::Halted(Halt::SlotUnavailable);
                ReplicatorAction::Stop(Halt::SlotUnavailable)
            },
            (Phase::AwaitingSnapshot { slot }, ReplicatorEvent::SnapshotFetched(Some(accounts))) => {
                self.phase = Phase::Subscribing;
                ReplicatorAction::LoadThenSubscribe(snapshot_batches(accounts, slot))
            },
            (Phase::AwaitingSnapshot { .. }, ReplicatorEvent::SnapshotFetched(None)) => {
                self.phase = Phase::Halted(Halt::SnapshotUnavailable);
                ReplicatorAction::Stop(Halt::SnapshotUnavailable)
            },
            (Phase::Subscribing, ReplicatorEvent::Subscribed(true)) => {
                self.phase = Phase::Streaming;
                ReplicatorAction::Receive { applied: false }
            },
            (Phase::Subscribing, ReplicatorEvent::Subscribed(false)) => {
                self.phase = Phase::Halted(Halt::SubscribeFailed);
                ReplicatorAction::Stop(Halt::SubscribeFailed)
            },
            (Phase::Streaming, ReplicatorEvent::Notification(n)) => {
                let applied = apply_notification(table, n);
                ReplicatorAction::Receive { applied }
            },
            (Phase::Streaming, ReplicatorEvent::StreamClosed) => {
                self.phase = Phase::Halted(Halt::StreamClosed);
                ReplicatorAction::Stop(Halt::StreamClosed)
            },
            _ => ReplicatorAction::Ignore,
        }
    }
}

} // verus!
