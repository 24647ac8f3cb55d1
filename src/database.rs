//! The user store: one SQLite connection holding the `users` table, with the
//! operations on it.
use vstd::prelude::*;

use crate::sqlite::{
    execute_create_users, execute_delete, execute_insert, execute_update, has_users_table,
    lists_exactly, open_in_memory, pairs_view, query_all, query_by_id, rows_of, text_fits,
};

verus! {

/// Why a store operation failed.
#[derive(Clone, Copy, Debug, PartialEq, Eq, Structural)]
pub enum StoreError {
    /// A uniqueness or not-null rule refused the statement (a taken `id`).
    ConstraintViolation,
    /// The database could not be reached, was busy or failed at the I/O level.
    Unavailable,
    /// Any other failure.
    Other,
}

/// The kind of failure that an SQLite extended result code stands for.
pub open spec fn error_kind(code: Option<i32>) -> StoreError {
    match code {
        Some(c) => {
            let primary = c & 0xff;
            if primary == 19 {
                StoreError::ConstraintViolation
            } else if primary == 5 || primary == 6 || primary == 10 || primary == 14 {
                StoreError::Unavailable
            } else {
                StoreError::Other
            }
        },
        None => StoreError::Other,
    }
}

/// Sorts an SQLite extended result code (`None` for an error that SQLite
/// did not report) into a `StoreError`.
pub fn classify(code: Option<i32>) -> (r: StoreError)
    ensures
        r == error_kind(code),
{
    match code {
        Some(c) => {
            let primary = c & 0xff;
            if primary == 19 {
                StoreError::ConstraintViolation
            } else if primary == 5 || primary == 6 || primary == 10 || primary == 14 {
                StoreError::Unavailable
            } else {
                StoreError::Other
            }
        },
        None => StoreError::Other,
    }
}

/// What `get_user_by_id` may return on the rows `rows`.
pub open spec fn lookup_result(rows: Map<i64, Seq<char>>, id: i64, r: Option<(i64, String)>) -> bool {
    match r {
        Some(p) => rows.contains_key(id) && p.0 == id && p.1@ == rows[id],
        None => !rows.contains_key(id),
    }
}

/// A successful insert of `(id, name)` that took `before` to `after`, with
/// `n` rows affected.
pub open spec fn insert_result(
    before: Map<i64, Seq<char>>,
    id: i64,
    name: Seq<char>,
    after: Map<i64, Seq<char>>,
    n: usize,
) -> bool {
    &&& !before.contains_key(id)
    &&& n == 1
    &&& after == before.insert(id, name)
}

/// A successful update of the name under `id` that took `before` to `after`,
/// with `n` rows affected.
pub open spec fn update_result(
    before: Map<i64, Seq<char>>,
    id: i64,
    name: Seq<char>,
    after: Map<i64, Seq<char>>,
    n: usize,
) -> bool {
    if before.contains_key(id) {
        n == 1 && after == before.insert(id, name)
    } else {
        n == 0 && after == before
    }
}

/// A successful delete of `id` that took `before` to `after`, with `n` rows
/// affected.
pub open spec fn delete_result(before: Map<i64, Seq<char>>, id: i64, after: Map<i64, Seq<char>>, n: usize) -> bool {
    if before.contains_key(id) {
        n == 1 && after == before.remove(id)
    } else {
        n == 0 && after == before
    }
}

/// The store: a connection to a private in-memory database.
pub struct Db {
    conn: rusqlite::Connection,
}

impl View for Db {
    type V = Map<i64, Seq<char>>;

    /// The rows of the `users` table; none while it does not exist.
    closed spec fn view(&self) -> Map<i64, Seq<char>> {
        rows_of(self.conn)
    }
}

impl Db {
    /// Whether the `users` table exists.
    pub closed spec fn ready(&self) -> bool {
        has_users_table(self.conn)
    }

    /// Whether `after` is `self` as a failed call left it.
    pub open spec fn unchanged(&self, after: &Db) -> bool {
        after.ready() == self.ready() && after@ == self@
    }

    /// Opens a new store on an empty in-memory database, without the table.
    pub fn new() -> (r: Result<Db, StoreError>)
        ensures
            r is Ok ==> !r->Ok_0.ready() && r->Ok_0@ == Map::<i64, Seq<char>>::empty(),
    {
        match open_in_memory() {
            Ok(conn) => Ok(Db { conn }),
            Err(code) => Err(classify(code)),
        }
    }

    /// Makes sure that the `users` table exists; rows that it holds stay.
    pub fn init_table(&mut self) -> (r: Result<usize, StoreError>)
        ensures
            r is Ok,
            final(self).ready() && final(self)@ == old(self)@,
    {
        match execute_create_users(&mut self.conn) {
            Ok(n) => Ok(n),
            Err(code) => Err(classify(code)),
        }
    }

    /// Adds the row `(id, name)`; fails where `id` is taken, with a
    /// constraint violation, or where the table is missing.
    pub fn insert_user(&mut self, id: i64, name: &str) -> (r: Result<usize, StoreError>)
        ensures
            !old(self).ready() ==> r is Err,
            old(self).ready() && old(self)@.contains_key(id) ==> r == Err::<usize, StoreError>(
                StoreError::ConstraintViolation,
            ),
            old(self).ready() && !old(self)@.contains_key(id) && text_fits(name@) ==> r == Ok::<usize, StoreError>(1),
            r is Ok ==> final(self).ready() && insert_result(old(self)@, id, name@, final(self)@, r->Ok_0),
            r is Err ==> old(self).unchanged(final(self)),
    {
        match execute_insert(&mut self.conn, id, name) {
            Ok(n) => Ok(n),
            Err(code) => {
                proof {
                    assert(1555i32 & 0xff == 19) by (bit_vector);
                }
                Err(classify(code))
            },
        }
    }

    /// Every row once, in the order the database gives them.
    pub fn get_all_users(&self) -> (r: Result<Vec<(i64, String)>, StoreError>)
        ensures
            !self.ready() ==> r is Err,
            self.ready() ==> r is Ok,
            r is Ok ==> lists_exactly(pairs_view(r->Ok_0@), self@),
    {
        match query_all(&self.conn) {
            Ok(v) => Ok(v),
            Err(code) => Err(classify(code)),
        }
    }

    /// The row under `id`, or `None` where there is none.
    pub fn get_user_by_id(&self, id: i64) -> (r: Result<Option<(i64, String)>, StoreError>)
        ensures
            !self.ready() ==> r is Err,
            self.ready() ==> r is Ok,
            r is Ok ==> lookup_result(self@, id, r->Ok_0),
    {
        match query_by_id(&self.conn, id) {
            Ok(o) => Ok(o),
            Err(code) => Err(classify(code)),
        }
    }

    /// Sets the name under `id`; the count of changed rows, 0 where `id` is
    /// absent.
    pub fn update_user(&mut self, id: i64, name: &str) -> (r: Result<usize, StoreError>)
        ensures
            !old(self).ready() ==> r is Err,
            old(self).ready() && text_fits(name@) ==> r is Ok,
            r is Ok ==> final(self).ready() && update_result(old(self)@, id, name@, final(self)@, r->Ok_0),
            r is Err ==> old(self).unchanged(final(self)),
    {
        match execute_update(&mut self.conn, id, name) {
            Ok(n) => Ok(n),
            Err(code) => Err(classify(code)),
        }
    }

    /// Removes the row under `id`; the count of removed rows, 0 where `id` is
    /// absent.
    pub fn delete_user(&mut self, id: i64) -> (r: Result<usize, StoreError>)
        ensures
            !old(self).ready() ==> r is Err,
            old(self).ready() ==> r is Ok,
            r is Ok ==> final(self).ready() && delete_result(old(self)@, id, final(self)@, r->Ok_0),
            r is Err ==> old(self).unchanged(final(self)),
    {
        match execute_delete(&mut self.conn, id) {
            Ok(n) => Ok(n),
            Err(code) => Err(classify(code)),
        }
    }
}

/// The `(id, name)` pairs that the rows `m` hold.
pub open spec fn pairs_of(m: Map<i64, Seq<char>>) -> Set<(i64, Seq<char>)> {
    Set::new(|p: (i64, Seq<char>)| m.contains_key(p.0) && m[p.0] == p.1)
}

/// Making sure of the table twice in a row, both times with success, leaves
/// exactly one table, with the rows it had before, and none where it was new.
pub proof fn lemma_init_idempotent(s0: Db, s1: Db, s2: Db)
    requires
        s1.ready() && s1@ == s0@,
        s2.ready() && s2@ == s1@,
    ensures
        s2.ready(),
        s2@ == s0@,
        !s0.ready() ==> s2@ == Map::<i64, Seq<char>>::empty(),
{
}

/// After a successful insert of `(id, name)`, fetching `id` gives exactly
/// that row.
pub proof fn lemma_insert_then_get(
    before: Map<i64, Seq<char>>,
    id: i64,
    name: Seq<char>,
    after: Map<i64, Seq<char>>,
    n: usize,
    r: Option<(i64, String)>,
)
    requires
        insert_result(before, id, name, after, n),
        lookup_result(after, id, r),
    ensures
        r is Some,
        r.unwrap().0 == id,
        r.unwrap().1@ == name,
{
}

/// A listing taken after a successful insert holds the rows from before and
/// the new one, each once, and nothing else.
pub proof fn lemma_list_after_insert(
    before: Map<i64, Seq<char>>,
    id: i64,
    name: Seq<char>,
    after: Map<i64, Seq<char>>,
    n: usize,
    s: Seq<(i64, Seq<char>)>,
)
    requires
        insert_result(before, id, name, after, n),
        lists_exactly(s, after),
    ensures
        s.to_set() == pairs_of(before).insert((id, name)),
        forall|i: int, j: int| 0 <= i < j < s.len() ==> s[i] != s[j],
{
    assert forall|p: (i64, Seq<char>)| s.to_set().contains(p) <==> pairs_of(before).insert((id, name)).contains(p) by {
        if s.to_set().contains(p) {
            let i = choose|i: int| 0 <= i < s.len() && s[i] == p;
            assert(after.contains_key(s[i].0));
        }
        if pairs_of(before).insert((id, name)).contains(p) {
            assert(after.contains_key(p.0));
            let i = choose|i: int| 0 <= i < s.len() && #[trigger] s[i].0 == p.0;
            assert(s[i] == p);
        }
    }
    assert(s.to_set() =~= pairs_of(before).insert((id, name)));
}

/// On rows without `id`: fetching gives "not found", and an update or a
/// delete that succeeds affects no row and changes nothing.
pub proof fn lemma_absent_id(
    rows: Map<i64, Seq<char>>,
    id: i64,
    name: Seq<char>,
    r: Option<(i64, String)>,
    after_update: Map<i64, Seq<char>>,
    n_update: usize,
    after_delete: Map<i64, Seq<char>>,
    n_delete: usize,
)
    requires
        !rows.contains_key(id),
        lookup_result(rows, id, r),
        update_result(rows, id, name, after_update, n_update),
        delete_result(rows, id, after_delete, n_delete),
    ensures
        r is None,
        n_update == 0 && after_update == rows,
        n_delete == 0 && after_delete == rows,
{
}

/// An update of a present `id` affects one row, after which fetching `id`
/// gives the same id with the new name; every other row stays as it was.
pub proof fn lemma_update_then_get(
    before: Map<i64, Seq<char>>,
    id: i64,
    name: Seq<char>,
    after: Map<i64, Seq<char>>,
    n: usize,
    r: Option<(i64, String)>,
)
    requires
        before.contains_key(id),
        update_result(before, id, name, after, n),
        lookup_result(after, id, r),
    ensures
        n == 1,
        r is Some,
        r.unwrap().0 == id,
        r.unwrap().1@ == name,
        after.dom() == before.dom(),
        forall|k: i64| k != id && before.contains_key(k) ==> after[k] == before[k],
{
    assert(after.dom() =~= before.dom());
}

/// A second insert under the same `id` never succeeds, whatever its name.
pub proof fn lemma_duplicate_insert_fails(
    before: Map<i64, Seq<char>>,
    id: i64,
    first: Seq<char>,
    second: Seq<char>,
    middle: Map<i64, Seq<char>>,
    n1: usize,
    after: Map<i64, Seq<char>>,
    n2: usize,
)
    requires
        insert_result(before, id, first, middle, n1),
    ensures
        !insert_result(middle, id, second, after, n2),
{
}

} // verus!
