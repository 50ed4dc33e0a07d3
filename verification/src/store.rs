//! The persistence gateway, modelled in memory: a school table whose
//! rows carry unique, store-assigned, strictly increasing ids.  The four
//! operations — list, get by id, insert, delete by id — have the
//! transactional semantics of the table: each call either performs its
//! whole effect or none.

use vstd::prelude::*;

use crate::models::{clone_school, CreateSchool, School, StoreError};

verus! {

/// Whether some row of `rows` carries `school_id`.
pub open spec fn has_id(rows: Seq<School>, school_id: i32) -> bool {
    exists|i: int| #![trigger rows[i]] 0 <= i < rows.len() && rows[i].id == school_id
}

/// The rows that remain after every row carrying `school_id` is removed,
/// in their original order.
pub open spec fn rows_without(rows: Seq<School>, school_id: i32) -> Seq<School>
    decreases rows.len(),
{
    if rows.len() == 0 {
        Seq::empty()
    } else {
        let rest = rows_without(rows.drop_last(), school_id);
        if rows.last().id == school_id {
            rest
        } else {
            rest.push(rows.last())
        }
    }
}

/// Well-formedness of a table state: every id is positive and below the
/// next fresh id, and ids strictly increase in insertion order (which
/// makes them unique).
pub open spec fn wf_rows(rows: Seq<School>, next_id: i32) -> bool {
    &&& 1 <= next_id
    &&& forall|i: int| #![trigger rows[i]] 0 <= i < rows.len() ==> 1 <= rows[i].id < next_id
    &&& forall|i: int, j: int| #![trigger rows[i], rows[j]]
        0 <= i < j < rows.len() ==> rows[i].id < rows[j].id
}

/// An in-memory school table: rows in insertion order plus the id the
/// store will assign next.  Ids are never reused, so `next_id` only grows.
pub struct SchoolStore {
    pub rows: Vec<School>,
    pub next_id: i32,
}

impl SchoolStore {
    /// Well-formedness: established by `new`, preserved by every operation.
    pub open spec fn wf(&self) -> bool {
        wf_rows(self.rows@, self.next_id)
    }

    /// An empty store; the first insert will be assigned id 1.
    pub fn new() -> (s: SchoolStore)
        ensures
            s.wf(),
            s.rows@.len() == 0,
            s.next_id == 1,
    {
        SchoolStore { rows: Vec::new(), next_id: 1 }
    }

    /// Lists every row in insertion order.  Never fails.
    pub fn get_schools(&self) -> (r: Result<Vec<School>, StoreError>)
        ensures
            r is Ok,
            r matches Ok(list) ==> list@ =~= self.rows@,
    {
        let mut list: Vec<School> = Vec::new();
        let n = self.rows.len();
        let mut i: usize = 0;
        while i < n
            invariant
                i <= n,
                n == self.rows@.len(),
                list@.len() == i,
                forall|j: int| #![trigger list@[j]] 0 <= j < i ==> list@[j] == self.rows@[j],
            decreases n - i,
        {
            list.push(clone_school(&self.rows[i]));
            i += 1;
        }
        Ok(list)
    }

    /// Returns the single row carrying `school_id`, or `NotFound` when
    /// no row does.
    pub fn get_school(&self, school_id: i32) -> (r: Result<School, StoreError>)
        ensures
            r is Ok <==> has_id(self.rows@, school_id),
            r matches Ok(s) ==> s.id == school_id && exists|i: int|
                #![trigger self.rows@[i]]
                0 <= i < self.rows@.len() && self.rows@[i] == s,
            r matches Err(e) ==> e == StoreError::NotFound,
    {
        let n = self.rows.len();
        let mut i: usize = 0;
        while i < n
            invariant
                i <= n,
                n == self.rows@.len(),
                forall|j: int| #![trigger self.rows@[j]] 0 <= j < i ==> self.rows@[j].id != school_id,
            decreases n - i,
        {
            if self.rows[i].id == school_id {
                return Ok(clone_school(&self.rows[i]));
            }
            i += 1;
        }
        Err(StoreError::NotFound)
    }

    /// Inserts a school under the next fresh id and returns the created
    /// row.  Fails, leaving the store unchanged, only when the id space
    /// is exhausted.
    pub fn create_school(&mut self, new_school: &CreateSchool) -> (r: Result<School, StoreError>)
        requires
            old(self).wf(),
        ensures
            final(self).wf(),
            r is Ok <==> old(self).next_id < i32::MAX,
            r matches Ok(s) ==> ({
                &&& s.id == old(self).next_id
                &&& s.name@ == new_school.name@
                &&& final(self).rows@ =~= old(self).rows@.push(s)
                &&& final(self).next_id == old(self).next_id + 1
            }),
            r matches Err(e) ==> ({
                &&& e == StoreError::StorageFailure
                &&& final(self).rows@ =~= old(self).rows@
                &&& final(self).next_id == old(self).next_id
            }),
    {
        if self.next_id == i32::MAX {
            return Err(StoreError::StorageFailure);
        }
        let created = School { id: self.next_id, name: new_school.name.clone() };
        let result = clone_school(&created);
        self.rows.push(created);
        self.next_id = self.next_id + 1;
        Ok(result)
    }

    /// Deletes every row carrying `school_id` (at most one, by
    /// uniqueness) and returns the number removed.  Deleting an absent
    /// id is not an error: the count is 0.
    pub fn delete_school(&mut self, school_id: i32) -> (r: Result<usize, StoreError>)
        requires
            old(self).wf(),
        ensures
            final(self).wf(),
            final(self).next_id == old(self).next_id,
            final(self).rows@ =~= rows_without(old(self).rows@, school_id),
            r is Ok,
            r matches Ok(count) ==> ({
                &&& count == old(self).rows@.len() - final(self).rows@.len()
                &&& count <= 1
                &&& ((count == 1) <==> has_id(old(self).rows@, school_id))
            }),
    {
        let n = self.rows.len();
        let mut kept: Vec<School> = Vec::new();
        let mut i: usize = 0;
        while i < n
            invariant
                i <= n,
                self.rows@ == old(self).rows@,
                self.next_id == old(self).next_id,
                n == self.rows@.len(),
                kept@ =~= rows_without(self.rows@.take(i as int), school_id),
            decreases n - i,
        {
            proof {
                assert(self.rows@.take(i as int + 1).drop_last() =~= self.rows@.take(i as int));
                assert(self.rows@.take(i as int + 1).last() == self.rows@[i as int]);
            }
            if self.rows[i].id != school_id {
                kept.push(clone_school(&self.rows[i]));
            }
            i += 1;
        }
        proof {
            assert(self.rows@.take(n as int) =~= self.rows@);
            lemma_rows_without_membership(self.rows@, school_id);
            lemma_rows_without_sorted(self.rows@, school_id);
            lemma_rows_without_count(self.rows@, school_id);
        }
        let count = n - kept.len();
        self.rows = kept;
        Ok(count)
    }
}

/// Every remaining row was a row of the original table, and no rows are
/// added: removal only ever shrinks the table.
pub proof fn lemma_rows_without_membership(rows: Seq<School>, school_id: i32)
    ensures
        rows_without(rows, school_id).len() <= rows.len(),
        forall|k: int| #![trigger rows_without(rows, school_id)[k]]
            0 <= k < rows_without(rows, school_id).len() ==> exists|i: int|
                #![trigger rows[i]]
                0 <= i < rows.len() && rows[i] == rows_without(rows, school_id)[k],
    decreases rows.len(),
{
    if rows.len() > 0 {
        lemma_rows_without_membership(rows.drop_last(), school_id);
        let res = rows_without(rows, school_id);
        let rest = rows_without(rows.drop_last(), school_id);
        assert forall|k: int| #![trigger res[k]] 0 <= k < res.len() implies exists|i: int|
            #![trigger rows[i]]
            0 <= i < rows.len() && rows[i] == res[k] by {
            if k < rest.len() {
                let i = choose|i: int|
                    #![trigger rows.drop_last()[i]]
                    0 <= i < rows.drop_last().len() && rows.drop_last()[i] == rest[k];
                assert(rows[i] == rest[k]);
            } else {
                assert(rows[rows.len() - 1] == res[k]);
            }
        }
    }
}

/// Removal keeps the strictly increasing order of ids.
pub proof fn lemma_rows_without_sorted(rows: Seq<School>, school_id: i32)
    requires
        forall|i: int, j: int| #![trigger rows[i], rows[j]]
            0 <= i < j < rows.len() ==> rows[i].id < rows[j].id,
    ensures
        forall|i: int, j: int|
            #![trigger rows_without(rows, school_id)[i], rows_without(rows, school_id)[j]]
            0 <= i < j < rows_without(rows, school_id).len()
                ==> rows_without(rows, school_id)[i].id < rows_without(rows, school_id)[j].id,
    decreases rows.len(),
{
    if rows.len() > 0 {
        lemma_rows_without_sorted(rows.drop_last(), school_id);
        lemma_rows_without_membership(rows.drop_last(), school_id);
        let res = rows_without(rows, school_id);
        let rest = rows_without(rows.drop_last(), school_id);
        assert forall|i: int, j: int| 0 <= i < j < res.len() implies res[i].id < res[j].id by {
            if j < rest.len() {
                assert(res[i] == rest[i] && res[j] == rest[j]);
            } else if rows.last().id != school_id && j == rest.len() {
                assert(res[i] == rest[i]);
                let m = choose|m: int|
                    #![trigger rows.drop_last()[m]]
                    0 <= m < rows.drop_last().len() && rows.drop_last()[m] == rest[i];
                assert(rows[m] == rest[i]);
                assert(rows[m].id < rows[rows.len() - 1].id);
            }
        }
    }
}

/// When a row with the id is present, removal drops exactly one row;
/// when none is, the table is unchanged.
pub proof fn lemma_rows_without_count(rows: Seq<School>, school_id: i32)
    requires
        forall|i: int, j: int| #![trigger rows[i], rows[j]]
            0 <= i < j < rows.len() ==> rows[i].id < rows[j].id,
    ensures
        has_id(rows, school_id) ==> rows_without(rows, school_id).len() == rows.len() - 1,
        !has_id(rows, school_id) ==> rows_without(rows, school_id) =~= rows,
    decreases rows.len(),
{
    if rows.len() > 0 {
        lemma_rows_without_count(rows.drop_last(), school_id);
        let rest = rows_without(rows.drop_last(), school_id);
        assert forall|i: int| 0 <= i < rows.drop_last().len() implies rows.drop_last()[i]
            == rows[i] by {}
        if rows.last().id == school_id {
            assert(rows[rows.len() - 1].id == school_id);
            assert(has_id(rows, school_id));
            assert(!has_id(rows.drop_last(), school_id)) by {
                if has_id(rows.drop_last(), school_id) {
                    let i = choose|i: int|
                        #![trigger rows.drop_last()[i]]
                        0 <= i < rows.drop_last().len() && rows.drop_last()[i].id == school_id;
                    assert(rows[i].id < rows[rows.len() - 1].id);
                }
            }
        } else {
            if has_id(rows, school_id) {
                let i = choose|i: int|
                    #![trigger rows[i]]
                    0 <= i < rows.len() && rows[i].id == school_id;
                assert(rows.drop_last()[i] == rows[i]);
                assert(has_id(rows.drop_last(), school_id));
            } else {
                assert(!has_id(rows.drop_last(), school_id)) by {
                    if has_id(rows.drop_last(), school_id) {
                        let i = choose|i: int|
                            #![trigger rows.drop_last()[i]]
                            0 <= i < rows.drop_last().len()
                                && rows.drop_last()[i].id == school_id;
                        assert(rows[i].id == school_id);
                        assert(has_id(rows, school_id));
                    }
                }
                assert(rows_without(rows, school_id) =~= rows);
            }
        }
    }
}

/// Read-after-write: appending a row under the next fresh id to a
/// well-formed table makes that id present, and every row carrying it
/// equals the appended row — so a lookup by that id returns exactly the
/// value the insert reported.
pub proof fn lemma_insert_then_get(rows: Seq<School>, next_id: i32, s: School)
    requires
        wf_rows(rows, next_id),
        s.id == next_id,
    ensures
        has_id(rows.push(s), s.id),
        forall|i: int| #![trigger rows.push(s)[i]]
            0 <= i < rows.push(s).len() && rows.push(s)[i].id == s.id ==> rows.push(s)[i] == s,
{
    assert(rows.push(s)[rows.len() as int] == s);
    assert forall|i: int| 0 <= i < rows.push(s).len() && rows.push(s)[i].id == s.id
        implies rows.push(s)[i] == s by {
        if i < rows.len() {
            assert(rows.push(s)[i] == rows[i]);
        }
    }
}

/// In a well-formed table the last row carries the greatest id.  The
/// insert protocol — write, then read back the row with the maximum
/// id inside the same transaction — therefore returns exactly the row
/// just appended.
pub proof fn lemma_last_row_has_max_id(rows: Seq<School>, next_id: i32)
    requires
        wf_rows(rows, next_id),
        rows.len() > 0,
    ensures
        forall|i: int| #![trigger rows[i]]
            0 <= i < rows.len() - 1 ==> rows[i].id < rows.last().id,
{
}

/// After a delete, a lookup of the deleted id comes back empty: no row
/// of the remaining table carries it.
pub proof fn lemma_delete_then_get(rows: Seq<School>, school_id: i32)
    ensures
        !has_id(rows_without(rows, school_id), school_id),
    decreases rows.len(),
{
    if rows.len() > 0 {
        lemma_delete_then_get(rows.drop_last(), school_id);
        let res = rows_without(rows, school_id);
        let rest = rows_without(rows.drop_last(), school_id);
        assert forall|k: int| 0 <= k < res.len() implies res[k].id != school_id by {
            if k < rest.len() {
                assert(res[k] == rest[k]);
                if rest[k].id == school_id {
                    assert(has_id(rest, school_id));
                }
            }
        }
        if has_id(res, school_id) {
            let k = choose|k: int| #![trigger res[k]] 0 <= k < res.len() && res[k].id == school_id;
            assert(res[k].id != school_id);
        }
    }
}

/// Removing an id that is not present leaves the table unchanged.
pub proof fn lemma_rows_without_absent(rows: Seq<School>, school_id: i32)
    requires
        !has_id(rows, school_id),
    ensures
        rows_without(rows, school_id) =~= rows,
    decreases rows.len(),
{
    if rows.len() > 0 {
        assert(rows[rows.len() - 1].id != school_id) by {
            if rows[rows.len() - 1].id == school_id {
                assert(has_id(rows, school_id));
            }
        }
        assert(!has_id(rows.drop_last(), school_id)) by {
            if has_id(rows.drop_last(), school_id) {
                let i = choose|i: int|
                    #![trigger rows.drop_last()[i]]
                    0 <= i < rows.drop_last().len() && rows.drop_last()[i].id == school_id;
                assert(rows[i].id == school_id);
                assert(has_id(rows, school_id));
            }
        }
        lemma_rows_without_absent(rows.drop_last(), school_id);
    }
}

/// Deleting the same id twice is idempotent: the second delete removes
/// nothing, so its count is 0 and the table is unchanged.
pub proof fn lemma_delete_idempotent(rows: Seq<School>, school_id: i32)
    ensures
        rows_without(rows_without(rows, school_id), school_id)
            =~= rows_without(rows, school_id),
        !has_id(rows_without(rows, school_id), school_id),
{
    lemma_delete_then_get(rows, school_id);
    lemma_rows_without_absent(rows_without(rows, school_id), school_id);
}

} // verus!
