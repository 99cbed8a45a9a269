//! The uniform resource store: Create/Get/List/Update/Delete over one
//! catalog resource, parameterized by the resource's field set.
//!
//! A record is a store-assigned, immutable, unique integer identifier plus
//! the resource's fields. Identifiers increase monotonically at insertion,
//! so the records are kept in ascending identifier order; a store built with
//! `new_newest_first` (the news catalog) lists them in descending order
//! instead. Update replaces every field of the addressed record and Delete
//! removes it; both report `NotFound` when the identifier is absent, which
//! is the affected-row rule `affected_rows_outcome` states on its own for
//! callers that drive an external row store.

use vstd::assert_by_contradiction;
use vstd::prelude::*;

use crate::errors::ApiError;

verus! {

/// The field set of one catalog resource: a plain value that can be copied
/// without changing it, so that handed-out records equal the stored ones.
pub trait Fields: Sized {
    /// An exact copy of the fields.
    fn dup(&self) -> (r: Self)
        ensures
            r == *self,
    ;
}

/// One persisted record: the store-assigned identifier and the fields.
pub struct Stored<P> {
    pub id: i32,
    pub fields: P,
}

impl<P: Fields> Stored<P> {
    /// An exact copy of the record.
    pub fn dup(&self) -> (r: Self)
        ensures
            r == *self,
    {
        Stored { id: self.id, fields: self.fields.dup() }
    }
}

/// Whether some record in `s` carries the identifier `id`.
pub open spec fn has_id<P>(s: Seq<Stored<P>>, id: i32) -> bool {
    exists|i: int| 0 <= i < s.len() && (#[trigger] s[i].id) == id
}

/// The position of the record carrying `id`; meaningful when `has_id` holds
/// and the identifiers are distinct.
pub open spec fn idx_of<P>(s: Seq<Stored<P>>, id: i32) -> int {
    choose|i: int| 0 <= i < s.len() && (#[trigger] s[i].id) == id
}

/// Identifiers strictly increase along the sequence (so they are unique).
pub open spec fn strictly_increasing_ids<P>(s: Seq<Stored<P>>) -> bool {
    forall|i: int, j: int|
        #![trigger s[i].id, s[j].id]
        0 <= i < j < s.len() ==> s[i].id < s[j].id
}

/// Every identifier is at least 1 and below `bound`.
pub open spec fn ids_below<P>(s: Seq<Stored<P>>, bound: int) -> bool {
    forall|i: int| 0 <= i < s.len() ==> 1 <= (#[trigger] s[i].id) && (s[i].id as int) < bound
}

/// In a sequence with strictly increasing identifiers, an identifier
/// occurs at one position only.
pub proof fn lemma_distinct_ids<P>(s: Seq<Stored<P>>, i: int, j: int)
    requires
        strictly_increasing_ids(s),
        0 <= i < s.len(),
        0 <= j < s.len(),
        s[i].id == s[j].id,
    ensures
        i == j,
{
    if i < j {
        assert(s[i].id < s[j].id);
    } else if j < i {
        assert(s[j].id < s[i].id);
    }
}

/// One catalog resource's store. `P` is the resource's field set.
pub struct ResourceStore<P> {
    records: Vec<Stored<P>>,
    next_id: i32,
    newest_first: bool,
}

impl<P: Fields> ResourceStore<P> {
    /// The persisted records, in insertion (ascending identifier) order.
    pub closed spec fn entries(&self) -> Seq<Stored<P>> {
        self.records@
    }

    /// The identifier the next created record will receive.
    pub closed spec fn spec_next_id(&self) -> int {
        self.next_id as int
    }

    /// Whether List returns the records newest first (descending identifier).
    pub closed spec fn newest_first(&self) -> bool {
        self.newest_first
    }

    /// Well-formedness: identifiers are strictly increasing, at least 1,
    /// and below the next identifier to assign.
    pub open spec fn inv(&self) -> bool {
        &&& strictly_increasing_ids(self.entries())
        &&& ids_below(self.entries(), self.spec_next_id())
        &&& 1 <= self.spec_next_id() <= i32::MAX as int
    }

    /// An empty store that lists records in ascending identifier order.
    pub fn new() -> (r: Self)
        ensures
            r.inv(),
            r.entries() == Seq::<Stored<P>>::empty(),
            r.spec_next_id() == 1,
            !r.newest_first(),
    {
        ResourceStore { records: Vec::new(), next_id: 1, newest_first: false }
    }

    /// An empty store that lists records newest first (the news catalog).
    pub fn new_newest_first() -> (r: Self)
        ensures
            r.inv(),
            r.entries() == Seq::<Stored<P>>::empty(),
            r.spec_next_id() == 1,
            r.newest_first(),
    {
        ResourceStore { records: Vec::new(), next_id: 1, newest_first: true }
    }

    /// Create: insert a new record with the store-assigned identifier and
    /// return the full persisted record. The returned record's fields equal
    /// the submitted payload verbatim. Fails only when the store can assign
    /// no further identifier.
    pub fn create(&mut self, fields: P) -> (r: Result<Stored<P>, ApiError>)
        requires
            old(self).inv(),
        ensures
            final(self).inv(),
            old(self).spec_next_id() < i32::MAX as int ==> r is Ok,
            r is Ok ==> {
                &&& r->Ok_0.id as int == old(self).spec_next_id()
                &&& r->Ok_0.fields == fields
                &&& final(self).entries() == old(self).entries().push(r->Ok_0)
                &&& final(self).spec_next_id() == old(self).spec_next_id() + 1
            },
            r is Err ==> r->Err_0 == ApiError::StoreUnavailable && *final(self) == *old(self),
            final(self).newest_first() == old(self).newest_first(),
    {
        if self.next_id == i32::MAX {
            return Err(ApiError::StoreUnavailable);
        }
        let id = self.next_id;
        self.next_id = self.next_id + 1;
        let rec = Stored { id, fields };
        let out = rec.dup();
        self.records.push(rec);
        Ok(out)
    }

    /// Get: the single record whose identifier matches, or `NotFound`.
    /// A missing identifier is distinguishable from any store fault.
    pub fn get(&self, id: i32) -> (r: Result<Stored<P>, ApiError>)
        requires
            self.inv(),
        ensures
            r is Ok <==> has_id(self.entries(), id),
            r is Ok ==> r->Ok_0 == self.entries()[idx_of(self.entries(), id)],
            r is Err ==> r->Err_0 == ApiError::NotFound,
    {
        let n = self.records.len();
        let mut i: usize = 0;
        while i < n
            invariant
                self.inv(),
                n == self.entries().len(),
                0 <= i <= n,
                forall|j: int| 0 <= j < i ==> (#[trigger] self.entries()[j].id) != id,
            decreases n - i,
        {
            if self.records[i].id == id {
                proof {
                    assert(has_id(self.entries(), id));
                    lemma_distinct_ids(self.entries(), idx_of(self.entries(), id), i as int);
                }
                return Ok(self.records[i].dup());
            }
            i = i + 1;
        }
        Err(ApiError::NotFound)
    }

    /// List: every record, ascending by identifier, or descending for a
    /// newest-first store. Never fails; an empty store yields an empty
    /// sequence, and repeated calls return the same sequence.
    pub fn list(&self) -> (r: Vec<Stored<P>>)
        requires
            self.inv(),
        ensures
            !self.newest_first() ==> r@ == self.entries(),
            self.newest_first() ==> r@ == self.entries().reverse(),
            !self.newest_first() ==> forall|i: int, j: int|
                #![trigger r@[i].id, r@[j].id]
                0 <= i < j < r@.len() ==> r@[i].id < r@[j].id,
            self.newest_first() ==> forall|i: int, j: int|
                #![trigger r@[i].id, r@[j].id]
                0 <= i < j < r@.len() ==> r@[i].id > r@[j].id,
    {
        let n = self.records.len();
        let mut out: Vec<Stored<P>> = Vec::new();
        if self.newest_first {
            let mut i: usize = n;
            while i > 0
                invariant
                    self.inv(),
                    n == self.entries().len(),
                    0 <= i <= n,
                    out@.len() == n - i,
                    forall|j: int| 0 <= j < out@.len() ==>
                        (#[trigger] out@[j]) == self.entries()[n - 1 - j],
                decreases i,
            {
                i = i - 1;
                out.push(self.records[i].dup());
            }
            proof {
                assert(out@ =~= self.entries().reverse());
            }
        } else {
            let mut i: usize = 0;
            while i < n
                invariant
                    self.inv(),
                    n == self.entries().len(),
                    0 <= i <= n,
                    out@.len() == i,
                    forall|j: int| 0 <= j < i ==>
                        (#[trigger] out@[j]) == self.entries()[j],
                decreases n - i,
            {
                out.push(self.records[i].dup());
                i = i + 1;
            }
            proof {
                assert(out@ =~= self.entries());
            }
        }
        out
    }

    /// Update: full replacement of every field of the record identified by
    /// `id`. When no such record exists the store is unchanged and the
    /// result is `NotFound` — a zero-row match is a failure, never a
    /// silent success, and it never creates a record.
    pub fn update(&mut self, id: i32, fields: P) -> (r: Result<(), ApiError>)
        requires
            old(self).inv(),
        ensures
            final(self).inv(),
            r is Ok <==> has_id(old(self).entries(), id),
            r is Ok ==> final(self).entries() == old(self).entries().update(
                idx_of(old(self).entries(), id),
                (Stored { id, fields }),
            ),
            r is Err ==> r->Err_0 == ApiError::NotFound && *final(self) == *old(self),
            final(self).spec_next_id() == old(self).spec_next_id(),
            final(self).newest_first() == old(self).newest_first(),
    {
        let n = self.records.len();
        let mut i: usize = 0;
        while i < n
            invariant
                self.inv(),
                *self == *old(self),
                n == self.entries().len(),
                0 <= i <= n,
                forall|j: int| 0 <= j < i ==> (#[trigger] self.entries()[j].id) != id,
            decreases n - i,
        {
            if self.records[i].id == id {
                proof {
                    assert(has_id(self.entries(), id));
                    lemma_distinct_ids(self.entries(), idx_of(self.entries(), id), i as int);
                }
                let _replaced = self.records.remove(i);
                self.records.insert(i, Stored { id, fields });
                proof {
                    assert(self.entries() =~= old(self).entries().update(
                        i as int,
                        (Stored { id, fields }),
                    ));
                }
                return Ok(());
            }
            i = i + 1;
        }
        Err(ApiError::NotFound)
    }

    /// Delete: remove the record identified by `id`. When no such record
    /// exists (in particular when it was already deleted) the store is
    /// unchanged and the result is `NotFound`, never success.
    pub fn delete(&mut self, id: i32) -> (r: Result<(), ApiError>)
        requires
            old(self).inv(),
        ensures
            final(self).inv(),
            r is Ok <==> has_id(old(self).entries(), id),
            r is Ok ==> final(self).entries() == old(self).entries().remove(
                idx_of(old(self).entries(), id),
            ),
            r is Err ==> r->Err_0 == ApiError::NotFound && *final(self) == *old(self),
            final(self).spec_next_id() == old(self).spec_next_id(),
            final(self).newest_first() == old(self).newest_first(),
    {
        let n = self.records.len();
        let mut i: usize = 0;
        while i < n
            invariant
                self.inv(),
                *self == *old(self),
                n == self.entries().len(),
                0 <= i <= n,
                forall|j: int| 0 <= j < i ==> (#[trigger] self.entries()[j].id) != id,
            decreases n - i,
        {
            if self.records[i].id == id {
                proof {
                    assert(has_id(self.entries(), id));
                    lemma_distinct_ids(self.entries(), idx_of(self.entries(), id), i as int);
                }
                let _removed = self.records.remove(i);
                proof {
                    assert(self.entries() =~= old(self).entries().remove(i as int));
                }
                return Ok(());
            }
            i = i + 1;
        }
        Err(ApiError::NotFound)
    }
}

/// Law: a record freshly appended with an identifier above every existing
/// one is found by Get under that identifier, and Get returns it intact.
/// With Create's postcondition this says: after a successful Create, a Get
/// of the returned identifier returns the identical record.
pub proof fn lemma_create_then_get<P>(s: Seq<Stored<P>>, rec: Stored<P>)
    requires
        strictly_increasing_ids(s),
        forall|i: int| 0 <= i < s.len() ==> (#[trigger] s[i].id) < rec.id,
    ensures
        has_id(s.push(rec), rec.id),
        s.push(rec)[idx_of(s.push(rec), rec.id)] == rec,
{
    let t = s.push(rec);
    assert(t[s.len() as int] == rec);
    assert(has_id(t, rec.id));
    let k = idx_of(t, rec.id);
    assert(0 <= k < t.len() && t[k].id == rec.id);
    if k < s.len() {
        assert(t[k] == s[k]);
        assert(s[k].id < rec.id);
    }
}

/// Law: after a Delete of an identifier, no record carries it any more,
/// so a Get of that identifier fails with NotFound and a second Delete of
/// it fails with NotFound as well.
pub proof fn lemma_delete_then_get<P>(s: Seq<Stored<P>>, id: i32)
    requires
        strictly_increasing_ids(s),
        has_id(s, id),
    ensures
        !has_id(s.remove(idx_of(s, id)), id),
{
    let k = idx_of(s, id);
    assert(0 <= k < s.len() && s[k].id == id);
    let t = s.remove(k);
    assert_by_contradiction!(!has_id(t, id), {
        let j = choose|j: int| 0 <= j < t.len() && (#[trigger] t[j].id) == id;
        if j < k {
            assert(t[j] == s[j]);
            lemma_distinct_ids(s, j, k);
        } else {
            assert(t[j] == s[j + 1]);
            lemma_distinct_ids(s, j + 1, k);
        }
    });
}

/// Law: List is idempotent across repeated calls — what it returns is a
/// function of the store's contents and listing order alone, so two calls
/// on the same state return the same sequence.
pub proof fn lemma_list_idempotent<P>(
    s: Seq<Stored<P>>,
    newest_first: bool,
    r1: Seq<Stored<P>>,
    r2: Seq<Stored<P>>,
)
    requires
        r1 == (if newest_first { s.reverse() } else { s }),
        r2 == (if newest_first { s.reverse() } else { s }),
    ensures
        r1 == r2,
{
}

/// The affected-row rule shared by every resource: an Update or Delete
/// that reached the store but matched zero rows is `NotFound`, never a
/// success; any positive row count is a success.
pub fn affected_rows_outcome(rows_affected: u64) -> (r: Result<(), ApiError>)
    ensures
        rows_affected == 0 <==> r == Err::<(), ApiError>(ApiError::NotFound),
        rows_affected > 0 <==> r == Ok::<(), ApiError>(()),
{
    if rows_affected == 0 {
        Err(ApiError::NotFound)
    } else {
        Ok(())
    }
}

/// The fetch rule shared by every by-identifier read: an absent row is
/// `NotFound`, distinguishable from any store fault; a present row is
/// returned unchanged.
pub fn found_outcome<T>(row: Option<T>) -> (r: Result<T, ApiError>)
    ensures
        row is Some <==> r is Ok,
        row is Some ==> r->Ok_0 == row->Some_0,
        row is None ==> r == Err::<T, ApiError>(ApiError::NotFound),
{
    match row {
        Some(v) => Ok(v),
        None => Err(ApiError::NotFound),
    }
}

} // verus!
