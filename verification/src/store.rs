//! The relation behind each table: rows held under a primary key.
//!
//! A [`Table`] keeps one row per key and hands out copies. What a read sees
//! is for the rows to say; what an update changes is for the statements of
//! [`crate::dbaccess`], which are written against it.

use vstd::prelude::*;

verus! {

/// A row that a [`Table`] can hold: it has a primary key, says which reads
/// see it, and can be copied.
pub trait Row: View + Sized {
    /// What a read names beside the table: nothing where it reads the table
    /// as a whole, the owner where rows are read under their owner.
    type Scope;

    /// The primary key of a row.
    spec fn key(row: Self::V) -> u128;

    /// Whether a read under `scope` sees the row.
    spec fn seen_in(row: Self::V, scope: Self::Scope) -> bool;

    /// Whether a read under `scope` sees this row.
    fn is_seen_in(&self, scope: &Self::Scope) -> (seen: bool)
        ensures
            seen == Self::seen_in(self@, *scope),
    ;

    /// The primary key of this row.
    fn id(&self) -> (id: u128)
        ensures
            id == Self::key(self@),
    ;

    /// A copy of this row.
    fn copy_row(&self) -> (copy: Self)
        ensures
            copy@ == self@,
    ;
}

/// Rows under a primary key. Its value is the map from each key to its row.
pub struct Table<R: Row> {
    rows: Vec<R>,
}

/// Whether `rows[i]` is the row stored under `id`.
spec fn stored_at<R: Row>(rows: Seq<R>, id: u128, i: int) -> bool {
    0 <= i < rows.len() && R::key(rows[i]@) == id
}

/// Whether no two rows of `rows` share a key.
spec fn distinct_keys<R: Row>(rows: Seq<R>) -> bool {
    forall|i: int, j: int|
        0 <= i < j < rows.len() ==> R::key(#[trigger] rows[i]@) != R::key(#[trigger] rows[j]@)
}

/// The map from each key among `rows` to the row stored under it.
spec fn keyed<R: Row>(rows: Seq<R>) -> Map<u128, R::V> {
    Map::new(
        |id: u128| exists|i: int| stored_at(rows, id, i),
        |id: u128| rows[choose|i: int| stored_at(rows, id, i)]@,
    )
}

/// The mathematical values of a list of rows.
pub open spec fn row_views<R: Row>(rows: Seq<R>) -> Seq<R::V> {
    rows.map_values(|row: R| row@)
}

/// `rows` holds each row of `table` that a read under `scope` sees exactly
/// once, and no other.
pub open spec fn lists_seen<R: Row>(rows: Seq<R::V>, table: Map<u128, R::V>, scope: R::Scope) -> bool {
    &&& forall|i: int|
        0 <= i < rows.len() ==> {
            &&& table.contains_key(R::key(#[trigger] rows[i]))
            &&& table[R::key(rows[i])] == rows[i]
            &&& R::seen_in(rows[i], scope)
        }
    &&& forall|i: int, j: int|
        0 <= i < j < rows.len() ==> R::key(#[trigger] rows[i]) != R::key(#[trigger] rows[j])
    &&& forall|id: u128| #[trigger]
        table.contains_key(id) && R::seen_in(table[id], scope) ==> rows.contains(table[id])
}

proof fn lemma_keyed_at<R: Row>(rows: Seq<R>, i: int)
    requires
        distinct_keys(rows),
        0 <= i < rows.len(),
    ensures
        keyed(rows).contains_key(R::key(rows[i]@)),
        keyed(rows)[R::key(rows[i]@)] == rows[i]@,
{
    let id = R::key(rows[i]@);
    assert(stored_at(rows, id, i));
    let c = choose|c: int| stored_at(rows, id, c);
    assert(stored_at(rows, id, c));
    assert(c == i) by {
        if c < i {
            assert(R::key(rows[c]@) != R::key(rows[i]@));
        } else if i < c {
            assert(R::key(rows[i]@) != R::key(rows[c]@));
        }
    }
}

proof fn lemma_keyed_push<R: Row>(rows: Seq<R>, row: R)
    requires
        distinct_keys(rows),
        !keyed(rows).contains_key(R::key(row@)),
    ensures
        distinct_keys(rows.push(row)),
        keyed(rows.push(row)) == keyed(rows).insert(R::key(row@), row@),
{
    let after = rows.push(row);
    let id = R::key(row@);
    assert forall|i: int, j: int| 0 <= i < j < after.len() implies R::key(
        #[trigger] after[i]@,
    ) != R::key(#[trigger] after[j]@) by {
        if j == rows.len() {
            assert(after[i] == rows[i]);
            if R::key(rows[i]@) == id {
                assert(stored_at(rows, id, i));
            }
        } else {
            assert(after[i] == rows[i] && after[j] == rows[j]);
            assert(R::key(rows[i]@) != R::key(rows[j]@));
        }
    }
    assert forall|k: u128| keyed(after).contains_key(k) <==> keyed(rows).insert(
        id,
        row@,
    ).contains_key(k) by {
        if keyed(after).contains_key(k) {
            let i = choose|i: int| stored_at(after, k, i);
            if i < rows.len() {
                assert(after[i] == rows[i]);
                assert(stored_at(rows, k, i));
            }
        }
        if keyed(rows).contains_key(k) {
            let i = choose|i: int| stored_at(rows, k, i);
            assert(after[i] == rows[i]);
            assert(stored_at(after, k, i));
        }
        if k == id {
            assert(after[rows.len() as int] == row);
            assert(stored_at(after, k, rows.len() as int));
        }
    }
    assert forall|k: u128| keyed(after).contains_key(k) implies keyed(after)[k] == keyed(
        rows,
    ).insert(id, row@)[k] by {
        let i = choose|i: int| stored_at(after, k, i);
        lemma_keyed_at(after, i);
        if i < rows.len() {
            assert(after[i] == rows[i]);
            assert(stored_at(rows, k, i));
            lemma_keyed_at(rows, i);
        } else {
            assert(after[i] == row);
        }
    }
    assert(keyed(after) =~= keyed(rows).insert(id, row@));
}

proof fn lemma_keyed_update<R: Row>(rows: Seq<R>, at: int, row: R)
    requires
        distinct_keys(rows),
        0 <= at < rows.len(),
        R::key(row@) == R::key(rows[at]@),
    ensures
        distinct_keys(rows.update(at, row)),
        keyed(rows.update(at, row)) == keyed(rows).insert(R::key(row@), row@),
{
    let after = rows.update(at, row);
    let id = R::key(row@);
    assert forall|i: int| 0 <= i < rows.len() implies R::key(#[trigger] after[i]@) == R::key(
        rows[i]@,
    ) by {
        if i != at {
            assert(after[i] == rows[i]);
        }
    }
    assert forall|i: int, j: int| 0 <= i < j < after.len() implies R::key(
        #[trigger] after[i]@,
    ) != R::key(#[trigger] after[j]@) by {
        assert(R::key(rows[i]@) != R::key(rows[j]@));
    }
    assert forall|k: u128| keyed(after).contains_key(k) <==> keyed(rows).insert(
        id,
        row@,
    ).contains_key(k) by {
        if keyed(after).contains_key(k) {
            let i = choose|i: int| stored_at(after, k, i);
            assert(stored_at(rows, k, i));
        }
        if keyed(rows).contains_key(k) {
            let i = choose|i: int| stored_at(rows, k, i);
            assert(stored_at(after, k, i));
        }
        if k == id {
            assert(stored_at(after, k, at));
        }
    }
    assert forall|k: u128| keyed(after).contains_key(k) implies keyed(after)[k] == keyed(
        rows,
    ).insert(id, row@)[k] by {
        let i = choose|i: int| stored_at(after, k, i);
        lemma_keyed_at(after, i);
        if i != at {
            assert(after[i] == rows[i]);
            lemma_keyed_at(rows, i);
        }
    }
    assert(keyed(after) =~= keyed(rows).insert(id, row@));
}

impl<R: Row> View for Table<R> {
    type V = Map<u128, R::V>;

    closed spec fn view(&self) -> Map<u128, R::V> {
        keyed(self.rows@)
    }
}

impl<R: Row> Table<R> {
    #[verifier::type_invariant]
    spec fn one_row_per_key(self) -> bool {
        distinct_keys(self.rows@)
    }

    /// Every row of a table is stored under its own key.
    pub proof fn lemma_keys(self)
        ensures
            forall|id: u128| #[trigger]
                self@.contains_key(id) ==> R::key(self@[id]) == id,
    {
        assert forall|id: u128| #[trigger] self@.contains_key(id) implies R::key(self@[id])
            == id by {
            let i = choose|i: int| stored_at(self.rows@, id, i);
            assert(stored_at(self.rows@, id, i));
        }
    }

    /// An empty table.
    pub fn new() -> (table: Table<R>)
        ensures
            table@ == Map::<u128, R::V>::empty(),
    {
        let table = Table { rows: Vec::new() };
        assert(table@ =~= Map::<u128, R::V>::empty()) by {
            assert forall|id: u128| !keyed(table.rows@).contains_key(id) by {
                if keyed(table.rows@).contains_key(id) {
                    let i = choose|i: int| stored_at(table.rows@, id, i);
                    assert(stored_at(table.rows@, id, i));
                }
            }
        }
        table
    }

    /// Where the row under `id` stands, if the table holds one.
    fn position(&self, id: u128) -> (at: Option<usize>)
        ensures
            match at {
                Some(i) => i < self.rows.len() && R::key(self.rows[i as int]@) == id
                    && self@.contains_key(id) && self@[id] == self.rows[i as int]@,
                None => !self@.contains_key(id),
            },
    {
        proof {
            use_type_invariant(self);
        }
        let mut i: usize = 0;
        while i < self.rows.len()
            invariant
                i <= self.rows.len(),
                distinct_keys(self.rows@),
                forall|k: int| 0 <= k < i ==> !stored_at(self.rows@, id, k),
            decreases self.rows.len() - i,
        {
            if self.rows[i].id() == id {
                proof {
                    lemma_keyed_at(self.rows@, i as int);
                }
                return Some(i);
            }
            i += 1;
        }
        proof {
            if keyed(self.rows@).contains_key(id) {
                let k = choose|k: int| stored_at(self.rows@, id, k);
                assert(stored_at(self.rows@, id, k));
            }
        }
        None
    }

    /// A copy of the row under `id`, if the table holds one.
    pub fn get(&self, id: u128) -> (found: Option<R>)
        ensures
            match found {
                Some(row) => self@.contains_key(id) && row@ == self@[id],
                None => !self@.contains_key(id),
            },
    {
        match self.position(id) {
            Some(i) => Some(self.rows[i].copy_row()),
            None => None,
        }
    }

    /// Copies of the rows that a read under `scope` sees, each once.
    pub fn select(&self, scope: &R::Scope) -> (seen: Vec<R>)
        ensures
            lists_seen::<R>(row_views(seen@), self@, *scope),
    {
        proof {
            use_type_invariant(self);
        }
        let mut seen: Vec<R> = Vec::new();
        let ghost mut from: Seq<int> = Seq::empty();
        let mut i: usize = 0;
        while i < self.rows.len()
            invariant
                i <= self.rows.len(),
                from.len() == seen.len(),
                forall|k: int|
                    0 <= k < seen.len() ==> 0 <= #[trigger] from[k] < i && seen[k]@
                        == self.rows[from[k]]@ && R::seen_in(seen[k]@, *scope),
                forall|k: int, l: int| 0 <= k < l < seen.len() ==> from[k] < from[l],
                forall|j: int|
                    0 <= j < i && R::seen_in((#[trigger] self.rows[j])@, *scope) ==> exists|k: int|
                        0 <= k < seen.len() && #[trigger] from[k] == j,
            decreases self.rows.len() - i,
        {
            if self.rows[i].is_seen_in(scope) {
                let ghost before = from;
                seen.push(self.rows[i].copy_row());
                proof {
                    from = from.push(i as int);
                    assert forall|j: int|
                        0 <= j < i + 1 && R::seen_in(
                            (#[trigger] self.rows[j])@,
                            *scope,
                        ) implies exists|k: int| 0 <= k < seen.len() && #[trigger] from[k] == j by {
                        if j < i {
                            let k = choose|k: int|
                                0 <= k < before.len() && #[trigger] before[k] == j;
                            assert(from[k] == j);
                        } else {
                            assert(from[seen.len() - 1] == j);
                        }
                    }
                }
            }
            i += 1;
        }
        proof {
            let rows = self.rows@;
            let shown = row_views(seen@);
            assert forall|k: int| 0 <= k < shown.len() implies {
                &&& self@.contains_key(R::key(#[trigger] shown[k]))
                &&& self@[R::key(shown[k])] == shown[k]
                &&& R::seen_in(shown[k], *scope)
            } by {
                assert(shown[k] == rows[from[k]]@);
                lemma_keyed_at(rows, from[k]);
            }
            assert forall|k: int, l: int| 0 <= k < l < shown.len() implies R::key(
                #[trigger] shown[k],
            ) != R::key(#[trigger] shown[l]) by {
                assert(shown[k] == rows[from[k]]@ && shown[l] == rows[from[l]]@);
                assert(R::key(rows[from[k]]@) != R::key(rows[from[l]]@));
            }
            assert forall|id: u128| #[trigger]
                self@.contains_key(id) && R::seen_in(self@[id], *scope) implies shown.contains(
                self@[id],
            ) by {
                let j = choose|j: int| stored_at(rows, id, j);
                assert(stored_at(rows, id, j));
                lemma_keyed_at(rows, j);
                let k = choose|k: int| 0 <= k < seen.len() && #[trigger] from[k] == j;
                assert(shown[k] == self@[id]);
            }
        }
        seen
    }

    /// Stores `row` under its key unless the key is taken, and tells
    /// whether it did.
    pub fn insert(&mut self, row: R) -> (inserted: bool)
        ensures
            inserted == !old(self)@.contains_key(R::key(row@)),
            inserted ==> final(self)@ == old(self)@.insert(R::key(row@), row@),
            !inserted ==> final(self)@ == old(self)@,
    {
        proof {
            use_type_invariant(&*self);
        }
        match self.position(row.id()) {
            Some(_) => false,
            None => {
                let mut rows: Vec<R> = Vec::new();
                std::mem::swap(&mut rows, &mut self.rows);
                proof {
                    lemma_keyed_push(rows@, row);
                }
                rows.push(row);
                self.rows = rows;
                true
            },
        }
    }

    /// Puts `row` in place of the row under its key, if the table holds
    /// one, and tells whether it did.
    pub fn replace(&mut self, row: R) -> (replaced: bool)
        ensures
            replaced == old(self)@.contains_key(R::key(row@)),
            replaced ==> final(self)@ == old(self)@.insert(R::key(row@), row@),
            !replaced ==> final(self)@ == old(self)@,
    {
        proof {
            use_type_invariant(&*self);
        }
        match self.position(row.id()) {
            Some(i) => {
                let mut rows: Vec<R> = Vec::new();
                std::mem::swap(&mut rows, &mut self.rows);
                proof {
                    lemma_keyed_update(rows@, i as int, row);
                }
                rows.set(i, row);
                self.rows = rows;
                true
            },
            None => false,
        }
    }
}

} // verus!
