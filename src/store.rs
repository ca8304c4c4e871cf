use vstd::prelude::*;

verus! {

/// The keys of a row sequence, as sequences of characters.
pub open spec fn key_views(keys: Seq<String>) -> Seq<Seq<char>> {
    keys.map_values(|k: String| k@)
}

/// The table obtained from `m` by upserting each entry of `entries`, in order.
/// A later entry for a key replaces any earlier row for that key.
pub open spec fn upserted<R>(m: Map<Seq<char>, R>, entries: Seq<(Seq<char>, R)>) -> Map<Seq<char>, R>
    decreases entries.len(),
{
    if entries.len() == 0 {
        m
    } else {
        upserted(m, entries.drop_last()).insert(entries.last().0, entries.last().1)
    }
}

/// The value of the last entry of `entries` with key `k`, if there is one.
pub open spec fn last_write<R>(entries: Seq<(Seq<char>, R)>, k: Seq<char>) -> Option<R>
    decreases entries.len(),
{
    if entries.len() == 0 {
        None
    } else if entries.last().0 == k {
        Some(entries.last().1)
    } else {
        last_write(entries.drop_last(), k)
    }
}

/// A row that carries its own key.
pub trait Keyed {
    spec fn key_view(&self) -> Seq<char>;

    fn key(&self) -> (k: String)
        ensures
            k@ == self.key_view(),
    ;
}

/// The upsert entries for a batch of rows, each under its own key.
pub open spec fn keyed_entries<R: Keyed>(rows: Seq<R>) -> Seq<(Seq<char>, R)> {
    rows.map_values(|r: R| (r.key_view(), r))
}

/// `v` in reverse order.
pub fn reversed<T>(v: Vec<T>) -> (r: Vec<T>)
    ensures
        r.len() == v.len(),
        forall|j: int| 0 <= j < v.len() ==> #[trigger] r@[j] == v@[v.len() - 1 - j],
{
    let ghost orig = v@;
    let mut rest = v;
    let mut r: Vec<T> = Vec::new();
    while rest.len() > 0
        invariant
            rest.len() + r.len() == orig.len(),
            rest@ == orig.subrange(0, rest.len() as int),
            forall|j: int| 0 <= j < r.len() ==> #[trigger] r@[j] == orig[orig.len() - 1 - j],
        decreases rest.len(),
    {
        let x = rest.pop().unwrap();
        r.push(x);
    }
    r
}

/// A key-unique table of rows. Writes are upserts: the row written last for a key
/// replaces any earlier one, whatever it holds.
pub struct Table<R> {
    keys: Vec<String>,
    vals: Vec<R>,
    contents: Ghost<Map<Seq<char>, R>>,
}

impl<R> View for Table<R> {
    type V = Map<Seq<char>, R>;

    closed spec fn view(&self) -> Map<Seq<char>, R> {
        self.contents@
    }
}

impl<R> Table<R> {
    pub closed spec fn wf(&self) -> bool {
        &&& self.keys.len() == self.vals.len()
        &&& key_views(self.keys@).no_duplicates()
        &&& self.contents@.dom() == key_views(self.keys@).to_set()
        &&& forall|i: int|
            0 <= i < self.keys.len() ==> #[trigger] self.contents@[self.keys@[i]@] == self.vals@[i]
    }

    /// An empty table.
    pub fn new() -> (t: Self)
        ensures
            t.wf(),
            t@ == Map::<Seq<char>, R>::empty(),
    {
        let t = Table { keys: Vec::new(), vals: Vec::new(), contents: Ghost(Map::empty()) };
        assert(key_views(t.keys@) =~= Seq::<Seq<char>>::empty());
        assert(t.contents@.dom() =~= key_views(t.keys@).to_set());
        t
    }

    fn position(&self, key: &String) -> (r: Option<usize>)
        requires
            self.wf(),
        ensures
            match r {
                Some(i) => {
                    &&& i < self.keys.len()
                    &&& self.keys@[i as int]@ == key@
                    &&& self@.contains_key(key@)
                    &&& self@[key@] == self.vals@[i as int]
                },
                None => !self@.contains_key(key@),
            },
    {
        let mut i: usize = 0;
        while i < self.keys.len()
            invariant
                self.wf(),
                i <= self.keys.len(),
                forall|j: int| 0 <= j < i ==> self.keys@[j]@ != key@,
            decreases self.keys.len() - i,
        {
            if self.keys[i] == *key {
                proof {
                    assert(key_views(self.keys@)[i as int] == key@);
                    assert(key_views(self.keys@).to_set().contains(key@));
                }
                return Some(i);
            }
            i = i + 1;
        }
        proof {
            if self@.contains_key(key@) {
                assert(key_views(self.keys@).to_set().contains(key@));
                let j = choose|j: int| 0 <= j < self.keys.len() && key_views(self.keys@)[j] == key@;
                assert(self.keys@[j]@ == key@);
            }
        }
        None
    }

    /// The row stored under `key`, if any.
    pub fn get(&self, key: &String) -> (r: Option<&R>)
        requires
            self.wf(),
        ensures
            match r {
                Some(v) => self@.contains_key(key@) && *v == self@[key@],
                None => !self@.contains_key(key@),
            },
    {
        match self.position(key) {
            Some(i) => Some(&self.vals[i]),
            None => None,
        }
    }

    /// Whether a row is stored under `key`.
    pub fn contains(&self, key: &String) -> (r: bool)
        requires
            self.wf(),
        ensures
            r == self@.contains_key(key@),
    {
        self.position(key).is_some()
    }

    /// The number of rows.
    pub fn len(&self) -> (n: usize)
        requires
            self.wf(),
        ensures
            n == self@.len(),
    {
        proof {
            key_views(self.keys@).unique_seq_to_set();
        }
        self.keys.len()
    }

    /// Upserts each row of `batch` under its own key, in order.
    pub fn upsert_batch(&mut self, batch: Vec<R>)
        where
            R: Keyed,
        requires
            old(self).wf(),
        ensures
            final(self).wf(),
            final(self)@ == upserted(old(self)@, keyed_entries(batch@)),
    {
        let ghost orig = batch@;
        let ghost start = self@;
        let n = batch.len();
        let mut rev = reversed(batch);
        while rev.len() > 0
            invariant
                self.wf(),
                rev.len() <= n,
                n == orig.len(),
                forall|j: int| 0 <= j < rev.len() ==> #[trigger] rev@[j] == orig[n - 1 - j],
                self@ == upserted(start, keyed_entries(orig).take(n - rev.len())),
            decreases rev.len(),
        {
            let ghost i = n - rev.len();
            let row = rev.pop().unwrap();
            assert(row == orig[i]);
            let key = row.key();
            self.upsert(key, row);
            proof {
                let e = keyed_entries(orig);
                assert(e.take(i + 1).drop_last() =~= e.take(i));
            }
        }
        assert(keyed_entries(orig).take(n as int) =~= keyed_entries(orig));
    }

    /// Writes `val` under `key`, replacing the row stored there if there is one.
    pub fn upsert(&mut self, key: String, val: R)
        requires
            old(self).wf(),
        ensures
            final(self).wf(),
            final(self)@ == old(self)@.insert(key@, val),
    {
        let ghost k = key@;
        match self.position(&key) {
            Some(i) => {
                self.vals.set(i, val);
                self.contents = Ghost(self.contents@.insert(k, val));
                proof {
                    assert(key_views(self.keys@).to_set().contains(k)) by {
                        assert(key_views(self.keys@)[i as int] == k);
                    }
                    assert(self.contents@.dom() =~= key_views(self.keys@).to_set());
                    assert forall|j: int| 0 <= j < self.keys.len() implies #[trigger] self.contents@[
                        self.keys@[j]@] == self.vals@[j] by {
                        if j != i {
                            assert(key_views(self.keys@)[j] != key_views(self.keys@)[i as int]);
                        }
                    }
                }
            },
            None => {
                let ghost old_keys = key_views(self.keys@);
                self.keys.push(key);
                self.vals.push(val);
                self.contents = Ghost(self.contents@.insert(k, val));
                proof {
                    assert(key_views(self.keys@) =~= old_keys.push(k));
                    assert(!old_keys.contains(k)) by {
                        if old_keys.contains(k) {
                            let j = choose|j: int| 0 <= j < old_keys.len() && old_keys[j] == k;
                            assert(old_keys.to_set().contains(k));
                        }
                    }
                    let nk = key_views(self.keys@);
                    assert forall|x: Seq<char>| #[trigger] nk.to_set().contains(x) == old_keys.to_set().insert(k).contains(x) by {
                        if old_keys.contains(x) {
                            let j = choose|j: int| 0 <= j < old_keys.len() && old_keys[j] == x;
                            assert(nk[j] == x);
                        }
                        if nk.contains(x) {
                            let j = choose|j: int| 0 <= j < nk.len() && nk[j] == x;
                            if j < old_keys.len() {
                                assert(old_keys[j] == x);
                            }
                        }
                        if x == k {
                            assert(nk[old_keys.len() as int] == k);
                        }
                    }
                    assert(nk.to_set() =~= old_keys.to_set().insert(k));
                    assert(self.contents@.dom() =~= key_views(self.keys@).to_set());
                    assert forall|j: int| 0 <= j < self.keys.len() implies #[trigger] self.contents@[
                        self.keys@[j]@] == self.vals@[j] by {
                        if j < old_keys.len() {
                            assert(old_keys[j] != k);
                            assert(key_views(self.keys@)[j] == old_keys[j]);
                        }
                    }
                }
            },
        }
    }
}

/// What upserting a sequence does to one key: the last write for it wins,
/// and a key that no entry names keeps its row.
pub proof fn lemma_upserted_at<R>(m: Map<Seq<char>, R>, entries: Seq<(Seq<char>, R)>, k: Seq<char>)
    ensures
        upserted(m, entries).contains_key(k) == (last_write(entries, k) is Some || m.contains_key(k)),
        last_write(entries, k) is Some ==> upserted(m, entries)[k] == last_write(entries, k)->Some_0,
        last_write(entries, k) is None ==> upserted(m, entries)[k] == m[k],
    decreases entries.len(),
{
    if entries.len() > 0 {
        lemma_upserted_at(m, entries.drop_last(), k);
    }
}

/// Applying the same batch of upserts twice leaves the table as applying it once.
pub proof fn lemma_upsert_batch_idempotent<R>(m: Map<Seq<char>, R>, entries: Seq<(Seq<char>, R)>)
    ensures
        upserted(upserted(m, entries), entries) == upserted(m, entries),
{
    let once = upserted(m, entries);
    let twice = upserted(once, entries);
    assert forall|k: Seq<char>| #[trigger] twice.contains_key(k) == once.contains_key(k) by {
        lemma_upserted_at(m, entries, k);
        lemma_upserted_at(once, entries, k);
    }
    assert forall|k: Seq<char>| twice.contains_key(k) implies #[trigger] twice[k] == once[k] by {
        lemma_upserted_at(m, entries, k);
        lemma_upserted_at(once, entries, k);
    }
    assert(twice =~= once);
}

/// Upserting two batches one after the other is upserting their concatenation.
pub proof fn lemma_upserted_concat<R>(
    m: Map<Seq<char>, R>,
    a: Seq<(Seq<char>, R)>,
    b: Seq<(Seq<char>, R)>,
)
    ensures
        upserted(upserted(m, a), b) == upserted(m, a + b),
    decreases b.len(),
{
    if b.len() == 0 {
        assert(a + b =~= a);
    } else {
        lemma_upserted_concat(m, a, b.drop_last());
        assert((a + b).drop_last() =~= a + b.drop_last());
        assert((a + b).last() == b.last());
    }
}

} // verus!
