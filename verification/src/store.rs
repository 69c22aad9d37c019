use crate::row::MeshcodeRow;
use vstd::prelude::*;

verus! {

/// The table already holds a row with this identifier.
pub open spec fn has_code(s: Seq<MeshcodeRow>, code: u64) -> bool {
    exists|i: int| 0 <= i < s.len() && s[i].code == code
}

/// One upsert: insert the row unless its identifier is already present, in
/// which case the conflict is resolved by doing nothing. The table's
/// primary key is the `code` alone.
pub open spec fn upsert_one(s: Seq<MeshcodeRow>, row: MeshcodeRow) -> Seq<MeshcodeRow> {
    if has_code(s, row.code) {
        s
    } else {
        s.push(row)
    }
}

/// A whole run's worth of upserts, in delivery order.
pub open spec fn upsert_all(s: Seq<MeshcodeRow>, rows: Seq<MeshcodeRow>) -> Seq<MeshcodeRow>
    decreases rows.len(),
{
    if rows.len() == 0 {
        s
    } else {
        upsert_all(upsert_one(s, rows.first()), rows.drop_first())
    }
}

/// Upserting never removes a row: membership is preserved.
pub proof fn lemma_upsert_preserves(s: Seq<MeshcodeRow>, rows: Seq<MeshcodeRow>, code: u64)
    requires
        has_code(s, code),
    ensures
        has_code(upsert_all(s, rows), code),
    decreases rows.len(),
{
    if rows.len() > 0 {
        let s1 = upsert_one(s, rows.first());
        let i = choose|i: int| 0 <= i < s.len() && s[i].code == code;
        assert(s1[i].code == code);
        lemma_upsert_preserves(s1, rows.drop_first(), code);
    }
}

/// After a run, every delivered row's identifier is present in the table.
pub proof fn lemma_upsert_covers(s: Seq<MeshcodeRow>, rows: Seq<MeshcodeRow>)
    ensures
        forall|k: int|
            0 <= k < rows.len() ==> has_code(upsert_all(s, rows), #[trigger] rows[k].code),
    decreases rows.len(),
{
    if rows.len() > 0 {
        let first = rows.first();
        let s1 = upsert_one(s, first);
        assert(has_code(s1, first.code)) by {
            if !has_code(s, first.code) {
                assert(s1[s.len() as int].code == first.code);
            }
        }
        lemma_upsert_preserves(s1, rows.drop_first(), first.code);
        lemma_upsert_covers(s1, rows.drop_first());
        assert forall|k: int|
            0 <= k < rows.len() implies has_code(upsert_all(s, rows), #[trigger] rows[k].code) by {
            if k > 0 {
                assert(rows[k] == rows.drop_first()[k - 1]);
            }
        }
    }
}

/// Rows whose identifiers are all present already change nothing.
pub proof fn lemma_upsert_noop(s: Seq<MeshcodeRow>, rows: Seq<MeshcodeRow>)
    requires
        forall|k: int| 0 <= k < rows.len() ==> has_code(s, #[trigger] rows[k].code),
    ensures
        upsert_all(s, rows) == s,
    decreases rows.len(),
{
    if rows.len() > 0 {
        assert(has_code(s, rows.first().code));
        assert(upsert_one(s, rows.first()) == s);
        assert(forall|k: int|
            0 <= k < rows.drop_first().len() ==> has_code(
                s,
                #[trigger] rows.drop_first()[k].code,
            ));
        lemma_upsert_noop(s, rows.drop_first());
    }
}

/// Delivering one more row after a batch is one more upsert.
pub proof fn lemma_upsert_all_snoc(s: Seq<MeshcodeRow>, rows: Seq<MeshcodeRow>, row: MeshcodeRow)
    ensures
        upsert_all(s, rows.push(row)) == upsert_one(upsert_all(s, rows), row),
    decreases rows.len(),
{
    let pushed = rows.push(row);
    if rows.len() == 0 {
        assert(pushed.first() == row);
        assert(pushed.drop_first().len() == 0);
        assert(upsert_all(s, pushed) == upsert_all(upsert_one(s, row), pushed.drop_first()));
        assert(upsert_all(s, rows) == s);
    } else {
        assert(pushed.first() == rows.first());
        assert(pushed.drop_first() =~= rows.drop_first().push(row));
        assert(upsert_all(s, pushed) == upsert_all(
            upsert_one(s, rows.first()),
            rows.drop_first().push(row),
        ));
        lemma_upsert_all_snoc(upsert_one(s, rows.first()), rows.drop_first(), row);
        assert(upsert_all(s, rows) == upsert_all(upsert_one(s, rows.first()), rows.drop_first()));
    }
}

/// Idempotence of a re-run: delivering the same rows a second time leaves
/// the table exactly as one delivery left it — the same row count and the
/// same bounding boxes. Safe re-run after partial failure rests on this.
pub proof fn lemma_idempotent(s: Seq<MeshcodeRow>, rows: Seq<MeshcodeRow>)
    ensures
        upsert_all(upsert_all(s, rows), rows) == upsert_all(s, rows),
{
    lemma_upsert_covers(s, rows);
    lemma_upsert_noop(upsert_all(s, rows), rows);
}

/// An in-memory table with the upsert semantics of the persistent store:
/// what the inserter pool's statements do to the real table, it does to a
/// vector. Tests drive whole runs through it.
#[derive(Debug, PartialEq, Eq)]
pub struct MockStore {
    rows: Vec<MeshcodeRow>,
}

impl View for MockStore {
    type V = Seq<MeshcodeRow>;

    closed spec fn view(&self) -> Seq<MeshcodeRow> {
        self.rows@
    }
}

impl MockStore {
    pub fn new() -> (s: MockStore)
        ensures
            s@.len() == 0,
    {
        MockStore { rows: Vec::new() }
    }

    pub fn contains_code(&self, code: u64) -> (r: bool)
        ensures
            r == has_code(self@, code),
    {
        let n = self.rows.len();
        for k in 0..n
            invariant
                n == self.rows@.len(),
                forall|i: int| 0 <= i < k ==> (#[trigger] self.rows@[i]).code != code,
        {
            if self.rows[k].code == code {
                return true;
            }
        }
        false
    }

    /// Insert with conflict on the identifier resolved as no-op.
    pub fn upsert(&mut self, row: MeshcodeRow)
        ensures
            final(self)@ == upsert_one(old(self)@, row),
    {
        if !self.contains_code(row.code) {
            self.rows.push(row);
        }
    }

    /// Deliver a batch of rows in order.
    pub fn upsert_rows(&mut self, rows: &Vec<MeshcodeRow>)
        ensures
            final(self)@ == upsert_all(old(self)@, rows@),
    {
        let n = rows.len();
        proof {
            assert(rows@.skip(0) =~= rows@);
        }
        for k in 0..n
            invariant
                n == rows@.len(),
                upsert_all(self@, rows@.skip(k as int)) == upsert_all(old(self)@, rows@),
        {
            proof {
                let tail = rows@.skip(k as int);
                assert(tail.first() == rows@[k as int]);
                assert(tail.drop_first() =~= rows@.skip(k as int + 1));
            }
            self.upsert(rows[k]);
        }
        proof {
            assert(rows@.skip(n as int) =~= Seq::<MeshcodeRow>::empty());
        }
    }

    pub fn len(&self) -> (n: usize)
        ensures
            n == self@.len(),
    {
        self.rows.len()
    }

    /// The stored rows, in insertion order.
    pub fn rows(&self) -> (r: &Vec<MeshcodeRow>)
        ensures
            r@ == self@,
    {
        &self.rows
    }
}

} // verus!
