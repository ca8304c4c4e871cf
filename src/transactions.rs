use vstd::prelude::*;

use crate::store::{keyed_entries, reversed, upserted, Keyed, Table};

verus! {

/// The commitment level at which blocks are observed.
pub open spec fn commitment_label() -> Seq<char> {
    "confirmed"@
}

/// The replicated record of one transaction, keyed by its signature.
pub struct TransactionRecord {
    pub signature: String,
    pub slot: u64,
    pub err: Option<String>,
    pub memo: Option<String>,
    pub block_time: Option<i64>,
    pub confirmation_status: String,
    pub data: Vec<u8>,
}

impl Keyed for TransactionRecord {
    open spec fn key_view(&self) -> Seq<char> {
        self.signature@
    }

    fn key(&self) -> (k: String) {
        self.signature.clone()
    }
}

/// The table of transaction records.
pub type TransactionTable = Table<TransactionRecord>;

/// A transaction of a block whose payload decoded.
pub struct DecodedTransaction {
    pub signature: String,
    pub err: Option<String>,
    pub data: Vec<u8>,
}

/// The body of a block notification; either part may be missing.
pub struct BlockContents {
    pub block_time: Option<i64>,
    /// Each transaction of the block, `None` where its payload failed to decode.
    pub transactions: Option<Vec<Option<DecodedTransaction>>>,
}

/// A block notification of the subscription.
pub struct BlockNotification {
    pub slot: u64,
    pub block: Option<BlockContents>,
}

/// The transactions of a block that decoded, in block order.
pub open spec fn decoded(txs: Seq<Option<DecodedTransaction>>) -> Seq<DecodedTransaction>
    decreases txs.len(),
{
    if txs.len() == 0 {
        Seq::empty()
    } else {
        match txs.last() {
            Some(t) => decoded(txs.drop_last()).push(t),
            None => decoded(txs.drop_last()),
        }
    }
}

/// `r` is the record of decoded transaction `t` of the block at `slot`.
pub open spec fn is_record_of(r: TransactionRecord, t: DecodedTransaction, slot: u64, block_time: Option<i64>) -> bool {
    &&& r.signature == t.signature
    &&& r.slot == slot
    &&& r.err == t.err
    &&& r.memo is None
    &&& r.block_time == block_time
    &&& r.confirmation_status@ == commitment_label()
    &&& r.data == t.data
}

/// The batch that records a block: `None` where the block or its transaction list
/// is missing; otherwise one record per transaction that decoded, in block order.
pub fn block_records(n: BlockNotification) -> (r: Option<Vec<TransactionRecord>>)
    ensures
        r is Some <==> (n.block is Some && n.block->Some_0.transactions is Some),
        r is Some ==> ({
            let b = n.block->Some_0;
            let ds = decoded(b.transactions->Some_0@);
            let rs = r->Some_0@;
            &&& rs.len() == ds.len()
            &&& forall|i: int| 0 <= i < rs.len() ==> is_record_of(#[trigger] rs[i], ds[i], n.slot, b.block_time)
        }),
{
    let block = match n.block {
        Some(b) => b,
        None => return None,
    };
    let block_time = block.block_time;
    let txs = match block.transactions {
        Some(t) => t,
        None => return None,
    };
    let ghost orig = txs@;
    let ghost slot = n.slot;
    let n_txs = txs.len();
    let mut rev = reversed(txs);
    let mut out: Vec<TransactionRecord> = Vec::new();
    while rev.len() > 0
        invariant
            rev.len() <= n_txs,
            n_txs == orig.len(),
            slot == n.slot,
            forall|j: int| 0 <= j < rev.len() ==> #[trigger] rev@[j] == orig[n_txs - 1 - j],
            out.len() == decoded(orig.take(n_txs - rev.len())).len(),
            forall|i: int|
                0 <= i < out.len() ==> is_record_of(
                    #[trigger] out@[i],
                    decoded(orig.take(n_txs - rev.len()))[i],
                    slot,
                    block_time,
                ),
        decreases rev.len(),
    {
        let ghost i = n_txs - rev.len();
        let item = rev.pop().unwrap();
        assert(item == orig[i]);
        assert(orig.take(i + 1).drop_last() =~= orig.take(i));
        match item {
            Some(t) => {
                let status = String::from_str("confirmed");
                out.push(
                    TransactionRecord {
                        signature: t.signature,
                        slot: n.slot,
                        err: t.err,
                        memo: None,
                        block_time,
                        confirmation_status: status,
                        data: t.data,
                    },
                );
            },
            None => {},
        }
    }
    assert(orig.take(n_txs as int) =~= orig);
    Some(out)
}

/// Records a block: upserts the records of its decoded transactions in one batch,
/// or leaves the table as it is where the block or its transaction list is missing.
/// Returns the number of records written.
pub fn record_block(table: &mut TransactionTable, n: BlockNotification) -> (written: Option<usize>)
    requires
        old(table).wf(),
    ensures
        final(table).wf(),
        written is Some <==> (n.block is Some && n.block->Some_0.transactions is Some),
        written is None ==> final(table)@ == old(table)@,
        written is Some ==> exists|rs: Seq<TransactionRecord>| {
            let b = n.block->Some_0;
            let ds = decoded(b.transactions->Some_0@);
            &&& rs.len() == ds.len()
            &&& written->Some_0 == rs.len()
            &&& (forall|i: int| 0 <= i < rs.len() ==> is_record_of(#[trigger] rs[i], ds[i], n.slot, b.block_time))
            &&& final(table)@ == upserted(old(table)@, #[trigger] keyed_entries(rs))
        },
{
    match block_records(n) {
        Some(batch) => {
            let count = batch.len();
            table.upsert_batch(batch);
            Some(count)
        },
        None => None,
    }
}

} // verus!
