use vstd::prelude::*;

use crate::store::{keyed_entries, reversed, upserted, Keyed, Table};

verus! {

/// The largest number of rows written by one bulk statement of the snapshot load.
pub const SNAPSHOT_CHUNK: usize = 10_000;

/// The replicated state of one account, keyed by its address.
pub struct AccountRecord {
    pub address: String,
    pub slot: u64,
    pub data: Vec<u8>,
    pub lamports: Option<u64>,
    pub owner: Option<String>,
    pub executable: Option<bool>,
    pub rent_epoch: Option<u64>,
}

impl Keyed for AccountRecord {
    open spec fn key_view(&self) -> Seq<char> {
        self.address@
    }

    fn key(&self) -> (k: String) {
        self.address.clone()
    }
}

/// The table of account snapshots.
pub type AccountTable = Table<AccountRecord>;

/// One account of the bootstrap snapshot: its address and its state bytes.
pub struct SnapshotAccount {
    pub address: String,
    pub data: Vec<u8>,
}

/// The row a snapshot account becomes, observed at `slot`.
pub open spec fn snapshot_record(a: SnapshotAccount, slot: u64) -> AccountRecord {
    AccountRecord {
        address: a.address,
        slot,
        data: a.data,
        lamports: None,
        owner: None,
        executable: None,
        rent_epoch: None,
    }
}

/// The rows a snapshot becomes, in order.
pub open spec fn snapshot_records(accounts: Seq<SnapshotAccount>, slot: u64) -> Seq<AccountRecord> {
    accounts.map_values(|a: SnapshotAccount| snapshot_record(a, slot))
}

/// The rows of a sequence of batches, in order.
pub open spec fn flattened(batches: Seq<Vec<AccountRecord>>) -> Seq<AccountRecord>
    decreases batches.len(),
{
    if batches.len() == 0 {
        Seq::empty()
    } else {
        flattened(batches.drop_last()) + batches.last()@
    }
}

/// Splits a fetched snapshot into the bulk upserts that load it: every batch holds
/// between one and `SNAPSHOT_CHUNK` rows, every batch but the last exactly
/// `SNAPSHOT_CHUNK`, and the batches in order hold the snapshot's rows in order.
pub fn snapshot_batches(accounts: Vec<SnapshotAccount>, slot: u64) -> (batches: Vec<Vec<AccountRecord>>)
    ensures
        flattened(batches@) == snapshot_records(accounts@, slot),
        forall|j: int|
            0 <= j < batches.len() ==> 0 < #[trigger] batches@[j].len() <= SNAPSHOT_CHUNK,
        forall|j: int|
            0 <= j < batches.len() - 1 ==> #[trigger] batches@[j].len() == SNAPSHOT_CHUNK,
{
    let ghost orig = accounts@;
    let n = accounts.len();
    let mut rev = reversed(accounts);
    let mut batches: Vec<Vec<AccountRecord>> = Vec::new();
    let mut cur: Vec<AccountRecord> = Vec::new();
    while rev.len() > 0
        invariant
            rev.len() <= n,
            n == orig.len(),
            forall|j: int| 0 <= j < rev.len() ==> #[trigger] rev@[j] == orig[n - 1 - j],
            flattened(batches@) + cur@ == snapshot_records(orig, slot).take(n - rev.len()),
            cur.len() < SNAPSHOT_CHUNK,
            forall|j: int| 0 <= j < batches.len() ==> #[trigger] batches@[j].len() == SNAPSHOT_CHUNK,
        decreases rev.len(),
    {
        let ghost i = n - rev.len();
        let a = rev.pop().unwrap();
        assert(a == orig[i]);
        let ghost before = flattened(batches@) + cur@;
        cur.push(AccountRecord {
            address: a.address,
            slot,
            data: a.data,
            lamports: None,
            owner: None,
            executable: None,
            rent_epoch: None,
        });
        proof {
            let recs = snapshot_records(orig, slot);
            assert(recs.take(i + 1) =~= recs.take(i).push(recs[i]));
            assert(flattened(batches@) + cur@ =~= before.push(recs[i]));
        }
        if cur.len() == SNAPSHOT_CHUNK {
            let ghost prev = batches@;
            let full = cur;
            cur = Vec::new();
            batches.push(full);
            proof {
                assert(batches@.drop_last() =~= prev);
                assert(flattened(batches@) + cur@ =~= flattened(batches@));
            }
        }
    }
    if cur.len() > 0 {
        let ghost prev = batches@;
        batches.push(cur);
        proof {
            assert(batches@.drop_last() =~= prev);
        }
    } else {
        assert(flattened(batches@) + cur@ =~= flattened(batches@));
    }
    assert(snapshot_records(orig, slot).take(n as int) =~= snapshot_records(orig, slot));
    batches
}

/// Loading a snapshot batch by batch is upserting its rows in order.
pub fn load_snapshot(table: &mut AccountTable, batches: Vec<Vec<AccountRecord>>)
    requires
        old(table).wf(),
    ensures
        final(table).wf(),
        final(table)@ == upserted(old(table)@, keyed_entries(flattened(batches@))),
{
    let ghost orig = batches@;
    let ghost start = table@;
    let n = batches.len();
    let mut rev = reversed(batches);
    while rev.len() > 0
        invariant
            table.wf(),
            rev.len() <= n,
            n == orig.len(),
            forall|j: int| 0 <= j < rev.len() ==> #[trigger] rev@[j] == orig[n - 1 - j],
            table@ == upserted(start, keyed_entries(flattened(orig.take(n - rev.len())))),
        decreases rev.len(),
    {
        let ghost i = n - rev.len();
        let batch = rev.pop().unwrap();
        assert(batch == orig[i]);
        table.upsert_batch(batch);
        proof {
            let done = orig.take(i);
            assert(orig.take(i + 1).drop_last() =~= done);
            assert(flattened(orig.take(i + 1)) == flattened(done) + batch@);
            assert(keyed_entries(flattened(done) + batch@) =~= keyed_entries(flattened(done))
                + keyed_entries(batch@));
            crate::store::lemma_upserted_concat(
                start,
                keyed_entries(flattened(done)),
                keyed_entries(batch@),
            );
        }
    }
    assert(orig.take(n as int) =~= orig);
}

/// A live account update. `data` is `None` where its payload failed to decode.
pub struct AccountNotification {
    pub address: String,
    pub slot: u64,
    pub data: Option<Vec<u8>>,
    pub lamports: u64,
    pub owner: String,
    pub executable: bool,
    pub rent_epoch: u64,
}

/// The row a decoded notification becomes.
pub open spec fn notification_record(n: AccountNotification, data: Vec<u8>) -> AccountRecord {
    AccountRecord {
        address: n.address,
        slot: n.slot,
        data,
        lamports: Some(n.lamports),
        owner: Some(n.owner),
        executable: Some(n.executable),
        rent_epoch: Some(n.rent_epoch),
    }
}

/// The account table after one notification: a decoded one replaces the row of
/// its address, whatever its slot; an undecodable one changes nothing.
pub open spec fn after_notification(
    m: Map<Seq<char>, AccountRecord>,
    n: AccountNotification,
) -> Map<Seq<char>, AccountRecord> {
    match n.data {
        Some(d) => m.insert(n.address@, notification_record(n, d)),
        None => m,
    }
}

/// The account table after a stream of notifications, taken in order.
pub open spec fn after_notifications(
    m: Map<Seq<char>, AccountRecord>,
    ns: Seq<AccountNotification>,
) -> Map<Seq<char>, AccountRecord>
    decreases ns.len(),
{
    if ns.len() == 0 {
        m
    } else {
        after_notification(after_notifications(m, ns.drop_last()), ns.last())
    }
}

/// Applies one subscription notification; returns whether it was recorded.
pub fn apply_notification(table: &mut AccountTable, n: AccountNotification) -> (applied: bool)
    requires
        old(table).wf(),
    ensures
        final(table).wf(),
        final(table)@ == after_notification(old(table)@, n),
        applied == n.data is Some,
{
    match n.data {
        Some(data) => {
            let key = n.address.clone();
            table.upsert(
                key,
                AccountRecord {
                    address: n.address,
                    slot: n.slot,
                    data,
                    lamports: Some(n.lamports),
                    owner: Some(n.owner),
                    executable: Some(n.executable),
                    rent_epoch: Some(n.rent_epoch),
                },
            );
            true
        },
        None => false,
    }
}

/// Processing two streams one after the other is processing their concatenation.
pub proof fn lemma_after_notifications_concat(
    m: Map<Seq<char>, AccountRecord>,
    a: Seq<AccountNotification>,
    b: Seq<AccountNotification>,
)
    ensures
        after_notifications(after_notifications(m, a), b) == after_notifications(m, a + b),
    decreases b.len(),
{
    if b.len() == 0 {
        assert(a + b =~= a);
    } else {
        lemma_after_notifications_concat(m, a, b.drop_last());
        assert((a + b).drop_last() =~= a + b.drop_last());
    }
}

/// A notification whose payload fails to decode does not keep any later
/// notification of the stream from being applied: the stream has the effect
/// it would have without it.
pub proof fn lemma_undecodable_notification_isolated(
    m: Map<Seq<char>, AccountRecord>,
    before: Seq<AccountNotification>,
    bad: AccountNotification,
    after: Seq<AccountNotification>,
)
    requires
        bad.data is None,
    ensures
        after_notifications(m, before.push(bad) + after) == after_notifications(m, before + after),
{
    lemma_after_notifications_concat(m, before.push(bad), after);
    lemma_after_notifications_concat(m, before, after);
    assert(before.push(bad).drop_last() =~= before);
}

/// Of two updates of one address, the table keeps the one applied last,
/// in either order and whatever their slots.
pub proof fn lemma_last_write_wins(
    m: Map<Seq<char>, AccountRecord>,
    first: AccountNotification,
    second: AccountNotification,
)
    requires
        first.address@ == second.address@,
        first.data is Some,
        second.data is Some,
    ensures
        after_notifications(m, seq![first, second])[second.address@] == notification_record(
            second,
            second.data->Some_0,
        ),
        after_notifications(m, seq![second, first])[first.address@] == notification_record(
            first,
            first.data->Some_0,
        ),
{
    assert(seq![first, second].drop_last() =~= seq![first]);
    assert(seq![first].drop_last() =~= Seq::<AccountNotification>::empty());
    assert(seq![second, first].drop_last() =~= seq![second]);
    assert(seq![second].drop_last() =~= Seq::<AccountNotification>::empty());
}

/// Applying the same batch of account rows twice leaves the table as applying it once.
pub proof fn lemma_account_batch_idempotent(m: Map<Seq<char>, AccountRecord>, batch: Seq<AccountRecord>)
    ensures
        upserted(upserted(m, keyed_entries(batch)), keyed_entries(batch)) == upserted(
            m,
            keyed_entries(batch),
        ),
{
    crate::store::lemma_upsert_batch_idempotent(m, keyed_entries(batch));
}

} // verus!
