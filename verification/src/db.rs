//! The store: the persistence-and-consistency layer for List records.
//!
//! `Repo` owns all reads and writes of the stored rows and provides one
//! operation per use case. It assigns ids and timestamps itself: ids are
//! handed out from an ascending counter and never reused, and timestamps are
//! instants drawn from a monotone counter owned by the store, so that a
//! later write always carries a strictly later instant. The rows are kept
//! in ascending id order, every stored name is non-empty, and every row
//! satisfies `created_at <= updated_at`.

use crate::error::AppError;
use crate::error::BackendError;
use vstd::prelude::*;

verus! {

/// Mathematical model of one stored row.
#[verifier::ext_equal]
pub ghost struct ListModel {
    pub id: int,
    pub name: Seq<char>,
    pub created_at: int,
    pub updated_at: int,
}

/// One List record: a store-assigned immutable id, a non-empty name, the
/// instant the row was created and the instant its name last changed.
#[derive(Debug)]
pub struct List {
    pub id: i64,
    pub name: String,
    pub created_at: i64,
    pub updated_at: i64,
}

impl View for List {
    type V = ListModel;

    open spec fn view(&self) -> ListModel {
        ListModel {
            id: self.id as int,
            name: self.name@,
            created_at: self.created_at as int,
            updated_at: self.updated_at as int,
        }
    }
}

impl Clone for List {
    fn clone(&self) -> (r: List)
        ensures
            r@ == self@,
    {
        let r = List {
            id: self.id,
            name: self.name.clone(),
            created_at: self.created_at,
            updated_at: self.updated_at,
        };
        proof {
            assert(r@ =~= self@);
        }
        r
    }
}

/// Mathematical model of the whole store: the rows in storage order, the
/// next id to hand out, and the latest instant drawn so far.
#[verifier::ext_equal]
pub ghost struct RepoModel {
    pub rows: Seq<ListModel>,
    pub next_id: int,
    pub clock: int,
}

/// The store. Rows are held in ascending id order; `next_id` is the id the
/// next created row receives; `clock` is the latest instant assigned to any
/// timestamp, advanced before every write that stamps one.
pub struct Repo {
    rows: Vec<List>,
    next_id: i64,
    clock: i64,
}

impl View for Repo {
    type V = RepoModel;

    closed spec fn view(&self) -> RepoModel {
        RepoModel {
            rows: self.rows@.map_values(|l: List| l@),
            next_id: self.next_id as int,
            clock: self.clock as int,
        }
    }
}

/// The index of the row with the given id, if any row has it.
pub open spec fn find_index(rows: Seq<ListModel>, id: int) -> Option<int>
    decreases rows.len(),
{
    if rows.len() == 0 {
        None
    } else if rows[0].id == id {
        Some(0 as int)
    } else {
        match find_index(rows.drop_first(), id) {
            Some(j) => Some(j + 1),
            None => None,
        }
    }
}

/// `find_index` returns the first index whose row carries the id.
pub proof fn lemma_find_index_hit(rows: Seq<ListModel>, id: int, i: int)
    requires
        0 <= i < rows.len(),
        rows[i].id == id,
        forall|j: int| 0 <= j < i ==> #[trigger] rows[j].id != id,
    ensures
        find_index(rows, id) == Some(i),
    decreases i,
{
    if i > 0 {
        assert(rows[0].id != id);
        assert(rows.drop_first()[i - 1] == rows[i]);
        assert forall|j: int| 0 <= j < i - 1 implies #[trigger] rows.drop_first()[j].id != id by {
            assert(rows.drop_first()[j] == rows[j + 1]);
        }
        lemma_find_index_hit(rows.drop_first(), id, i - 1);
    }
}

/// When no row carries the id, `find_index` finds nothing.
pub proof fn lemma_find_index_miss(rows: Seq<ListModel>, id: int)
    requires
        forall|j: int| 0 <= j < rows.len() ==> #[trigger] rows[j].id != id,
    ensures
        find_index(rows, id) is None,
    decreases rows.len(),
{
    if rows.len() > 0 {
        assert forall|j: int| 0 <= j < rows.drop_first().len() implies #[trigger] rows.drop_first()[j].id
            != id by {
            assert(rows.drop_first()[j] == rows[j + 1]);
        }
        lemma_find_index_miss(rows.drop_first(), id);
    }
}

/// Whatever `find_index` returns is a sound answer: a found index carries
/// the id, and a miss means no row carries it.
pub proof fn lemma_find_index_sound(rows: Seq<ListModel>, id: int)
    ensures
        match find_index(rows, id) {
            Some(i) => 0 <= i < rows.len() && rows[i].id == id,
            None => forall|j: int| 0 <= j < rows.len() ==> #[trigger] rows[j].id != id,
        },
    decreases rows.len(),
{
    if rows.len() > 0 && rows[0].id != id {
        lemma_find_index_sound(rows.drop_first(), id);
        match find_index(rows.drop_first(), id) {
            Some(j) => {
                assert(rows.drop_first()[j] == rows[j + 1]);
            },
            None => {
                assert forall|j: int| 0 <= j < rows.len() implies #[trigger] rows[j].id != id by {
                    if j > 0 {
                        assert(rows.drop_first()[j - 1] == rows[j]);
                    }
                }
            },
        }
    }
}

/// Law: a row appended under an id greater than every stored id — as
/// `create_list` appends it — is exactly the row that a lookup by that id
/// then finds. With `create_list`'s and `get_list`'s contracts this says:
/// creating a list and fetching it by the returned id yields an entity whose
/// fields, the name in particular, are identical to the created one.
pub proof fn lemma_created_row_is_found(rows: Seq<ListModel>, l: ListModel)
    requires
        forall|j: int| 0 <= j < rows.len() ==> #[trigger] rows[j].id < l.id,
    ensures
        find_index(rows.push(l), l.id) == Some(rows.len() as int),
        rows.push(l)[rows.len() as int] == l,
{
    assert forall|j: int| 0 <= j < rows.len() implies #[trigger] rows.push(l)[j].id != l.id by {
        assert(rows.push(l)[j] == rows[j]);
    }
    lemma_find_index_hit(rows.push(l), l.id, rows.len() as int);
}

impl Repo {
    /// Well-formedness of the store: rows in strictly ascending id order,
    /// every id already handed out below `next_id`, every name non-empty,
    /// and every timestamp pair ordered and no later than `clock`.
    pub open spec fn wf(self) -> bool {
        &&& forall|i: int, j: int|
            0 <= i < j < self@.rows.len() ==> #[trigger] self@.rows[i].id < #[trigger] self@.rows[j].id
        &&& forall|i: int|
            0 <= i < self@.rows.len() ==> 1 <= #[trigger] self@.rows[i].id < self@.next_id
        &&& forall|i: int| 0 <= i < self@.rows.len() ==> #[trigger] self@.rows[i].name.len() > 0
        &&& forall|i: int|
            0 <= i < self@.rows.len() ==> #[trigger] self@.rows[i].created_at <= self@.rows[i].updated_at
                <= self@.clock
        &&& 1 <= self@.next_id
        &&& 0 <= self@.clock
    }

    /// A fresh, empty store.
    pub fn new() -> (r: Repo)
        ensures
            r.wf(),
            r@.rows == Seq::<ListModel>::empty(),
            r@.next_id == 1,
            r@.clock == 0,
    {
        let r = Repo { rows: Vec::new(), next_id: 1, clock: 0 };
        proof {
            assert(r@.rows =~= Seq::<ListModel>::empty());
        }
        r
    }

    /// The index at which the row with this id is stored, if any.
    fn position_of(&self, id: i64) -> (r: Option<usize>)
        ensures
            match r {
                Some(i) => i < self@.rows.len() && find_index(self@.rows, id as int) == Some(
                    i as int,
                ),
                None => find_index(self@.rows, id as int) is None,
            },
    {
        let mut i: usize = 0;
        while i < self.rows.len()
            invariant
                i <= self.rows.len(),
                forall|j: int| 0 <= j < i ==> #[trigger] self@.rows[j].id != id as int,
            decreases self.rows.len() - i,
        {
            if self.rows[i].id == id {
                proof {
                    lemma_find_index_hit(self@.rows, id as int, i as int);
                }
                return Some(i);
            }
            i = i + 1;
        }
        proof {
            lemma_find_index_miss(self@.rows, id as int);
        }
        None
    }

    /// Fetch the row with the given id; fails with `RecordNotFound` when no
    /// row has that id.
    pub fn get_list(&self, id: i64) -> (r: Result<List, AppError>)
        requires
            self.wf(),
        ensures
            match find_index(self@.rows, id as int) {
                Some(i) => r matches Ok(l) && l@ == self@.rows[i],
                None => r matches Err(e) && e is RecordNotFound,
            },
    {
        match self.position_of(id) {
            Some(i) => Ok(self.rows[i].clone()),
            None => Err(AppError::from(BackendError::RowNotFound)),
        }
    }

    /// All rows, in ascending id order. An empty store yields an empty
    /// listing, never an error.
    pub fn filter_lists(&self) -> (r: Result<Vec<List>, AppError>)
        requires
            self.wf(),
        ensures
            r matches Ok(v) && v@.len() == self@.rows.len() && (forall|i: int|
                0 <= i < v@.len() ==> #[trigger] v@[i]@ == self@.rows[i]),
            r matches Ok(v) ==> forall|i: int, j: int|
                0 <= i < j < v@.len() ==> #[trigger] v@[i]@.id < #[trigger] v@[j]@.id,
    {
        let mut out: Vec<List> = Vec::new();
        let mut i: usize = 0;
        while i < self.rows.len()
            invariant
                i <= self.rows.len(),
                out@.len() == i,
                forall|j: int| 0 <= j < i ==> #[trigger] out@[j]@ == self@.rows[j],
            decreases self.rows.len() - i,
        {
            out.push(self.rows[i].clone());
            i = i + 1;
        }
        Ok(out)
    }

    /// Insert a row under a fresh id. The caller must have validated the
    /// name as non-empty already. The store assigns the id and stamps both
    /// timestamps with one freshly drawn instant, so the persisted row has
    /// `created_at == updated_at`. An exhausted id or instant counter is a
    /// backend failure like any other: it is classified and reported, and
    /// the store is left unchanged.
    pub fn create_list(&mut self, name: &str) -> (r: Result<List, AppError>)
        requires
            old(self).wf(),
            name@.len() > 0,
        ensures
            final(self).wf(),
            old(self)@.next_id < i64::MAX && old(self)@.clock < i64::MAX ==> (r matches Ok(l)
                && l@ == (ListModel {
                id: old(self)@.next_id,
                name: name@,
                created_at: old(self)@.clock + 1,
                updated_at: old(self)@.clock + 1,
            }) && final(self)@.rows == old(self)@.rows.push(l@) && final(self)@.next_id == old(self)@.next_id
                + 1 && final(self)@.clock == old(self)@.clock + 1),
            r matches Ok(l) ==> forall|j: int|
                0 <= j < old(self)@.rows.len() ==> l@.id > #[trigger] old(self)@.rows[j].id,
            !(old(self)@.next_id < i64::MAX && old(self)@.clock < i64::MAX) ==> (r matches Err(e)
                && e is Other && final(self)@ == old(self)@),
    {
        if self.next_id == i64::MAX || self.clock == i64::MAX {
            return Err(
                AppError::from(
                    BackendError::Other(String::from_str("store counters exhausted")),
                ),
            );
        }
        self.clock = self.clock + 1;
        let row = List {
            id: self.next_id,
            name: String::from_str(name),
            created_at: self.clock,
            updated_at: self.clock,
        };
        self.next_id = self.next_id + 1;
        let result = row.clone();
        self.rows.push(row);
        proof {
            assert(self@.rows =~= old(self)@.rows.push(result@));
            assert(result@ =~= (ListModel {
                id: old(self)@.next_id,
                name: name@,
                created_at: old(self)@.clock + 1,
                updated_at: old(self)@.clock + 1,
            }));
        }
        Ok(result)
    }

    /// Remove the row with the given id if one is present. Deletion is
    /// idempotent at the store layer: it succeeds whether or not a row
    /// matched, and afterwards no row carries the id.
    pub fn delete_list(&mut self, id: i64) -> (r: Result<(), AppError>)
        requires
            old(self).wf(),
        ensures
            final(self).wf(),
            r is Ok,
            final(self)@.next_id == old(self)@.next_id,
            final(self)@.clock == old(self)@.clock,
            match find_index(old(self)@.rows, id as int) {
                Some(i) => final(self)@.rows == old(self)@.rows.remove(i),
                None => final(self)@.rows == old(self)@.rows,
            },
            forall|j: int| 0 <= j < final(self)@.rows.len() ==> #[trigger] final(self)@.rows[j].id != id as int,
    {
        match self.position_of(id) {
            Some(i) => {
                self.rows.remove(i);
                proof {
                    let or = old(self)@.rows;
                    assert(self@.rows =~= or.remove(i as int));
                    or.remove_ensures(i as int);
                    assert forall|j: int|
                        0 <= j < self@.rows.len() implies #[trigger] self@.rows[j].id
                        != id as int by {
                        lemma_find_index_sound(or, id as int);
                        if j < i {
                            assert(self@.rows[j] == or[j]);
                        } else {
                            assert(self@.rows[j] == or[j + 1]);
                        }
                    }
                }
                Ok(())
            },
            None => {
                proof {
                    lemma_find_index_sound(old(self)@.rows, id as int);
                }
                Ok(())
            },
        }
    }

    /// Update the name of the row with the given id, in one read-then-write
    /// step against the store's state. A missing id fails with
    /// `RecordNotFound`. When the submitted name equals the stored one the
    /// write is skipped: the row, its `updated_at` and the store are left
    /// exactly as they were, and no instant is drawn. Only when the name
    /// differs is the row rewritten, with `updated_at` advanced to a freshly
    /// drawn, strictly later instant; an exhausted instant counter on that
    /// path is a backend failure like any other, classified and reported
    /// with the store unchanged. The caller must have validated the name as
    /// non-empty already.
    pub fn update_list(&mut self, id: i64, name: &str) -> (r: Result<List, AppError>)
        requires
            old(self).wf(),
            name@.len() > 0,
        ensures
            final(self).wf(),
            final(self)@.next_id == old(self)@.next_id,
            find_index(old(self)@.rows, id as int) is None ==> (r matches Err(e)
                && e is RecordNotFound && final(self)@ == old(self)@),
            find_index(old(self)@.rows, id as int) matches Some(i) ==> ({
                let cur = old(self)@.rows[i];
                &&& cur.name == name@ ==> (r matches Ok(l) && l@ == cur && final(self)@ == old(self)@)
                &&& cur.name != name@ && old(self)@.clock < i64::MAX ==> (r matches Ok(l) && l@
                    == (ListModel {
                    id: cur.id,
                    name: name@,
                    created_at: cur.created_at,
                    updated_at: old(self)@.clock + 1,
                }) && l@.updated_at > cur.updated_at && final(self)@.rows == old(self)@.rows.update(
                    i,
                    l@,
                ) && final(self)@.clock == old(self)@.clock + 1)
                &&& cur.name != name@ && old(self)@.clock == i64::MAX ==> (r matches Err(e)
                    && e is Other && final(self)@ == old(self)@)
            }),
    {
        match self.position_of(id) {
            None => Err(AppError::from(BackendError::RowNotFound)),
            Some(i) => {
                proof {
                    lemma_find_index_sound(self@.rows, id as int);
                }
                let submitted = String::from_str(name);
                if self.rows[i].name == submitted {
                    let current = self.rows[i].clone();
                    Ok(current)
                } else {
                    if self.clock == i64::MAX {
                        return Err(
                            AppError::from(
                                BackendError::Other(
                                    String::from_str("store counters exhausted"),
                                ),
                            ),
                        );
                    }
                    self.clock = self.clock + 1;
                    let mut row = self.rows.remove(i);
                    row.name = submitted;
                    row.updated_at = self.clock;
                    let result = row.clone();
                    self.rows.insert(i, row);
                    proof {
                        let or = old(self)@.rows;
                        assert(self@.rows =~= or.update(i as int, result@));
                        assert(result@ =~= (ListModel {
                            id: or[i as int].id,
                            name: name@,
                            created_at: or[i as int].created_at,
                            updated_at: old(self)@.clock + 1,
                        }));
                    }
                    Ok(result)
                }
            },
        }
    }
}

} // verus!
