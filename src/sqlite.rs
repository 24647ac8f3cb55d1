//! The calls into rusqlite that the store makes, each with the effect that
//! SQLite gives its statement on the `users` table.
use vstd::prelude::*;

use rusqlite::OptionalExtension;

verus! {

#[verifier::external_type_specification]
#[verifier::external_body]
pub struct ExConnection(rusqlite::Connection);


/// Whether the database behind the connection holds the `users` table.
pub uninterp spec fn has_users_table(c: rusqlite::Connection) -> bool;

/// The rows of the `users` table, each `name` keyed by its `id`.
pub uninterp spec fn users_rows(c: rusqlite::Connection) -> Map<i64, Seq<char>>;

/// The rows that a connection shows: none while the table is missing.
pub open spec fn rows_of(c: rusqlite::Connection) -> Map<i64, Seq<char>> {
    if has_users_table(c) {
        users_rows(c)
    } else {
        Map::empty()
    }
}

/// Whether two connections show the same table and the same rows.
pub open spec fn same_state(a: rusqlite::Connection, b: rusqlite::Connection) -> bool {
    &&& has_users_table(a) == has_users_table(b)
    &&& rows_of(a) == rows_of(b)
}

/// Whether SQLite stores `s` as a text value: at most four bytes a
/// character stay within its limit of a billion bytes on a value and a row.
pub open spec fn text_fits(s: Seq<char>) -> bool {
    s.len() <= 100_000_000
}

/// A listing of rows: `(id, name)` pairs with the names as text.
pub open spec fn pairs_view(v: Seq<(i64, String)>) -> Seq<(i64, Seq<char>)> {
    v.map_values(|p: (i64, String)| (p.0, p.1@))
}

/// `s` lists each row of `m` exactly once, in some order.
pub open spec fn lists_exactly(s: Seq<(i64, Seq<char>)>, m: Map<i64, Seq<char>>) -> bool {
    &&& forall|i: int, j: int| 0 <= i < j < s.len() ==> s[i].0 != s[j].0
    &&& forall|i: int| 0 <= i < s.len() ==> #[trigger] m.contains_key(s[i].0) && m[s[i].0] == s[i].1
    &&& forall|k: i64| m.contains_key(k) ==> exists|i: int| 0 <= i < s.len() && #[trigger] s[i].0 == k
}

/// Relies on rusqlite::Connection::open_in_memory: a new private in-memory
/// database, which holds no table yet. A failure gives SQLite's extended
/// result code, `None` for one of rusqlite's own errors (also below).
#[verifier::external_body]
pub(crate) fn open_in_memory() -> (r: Result<rusqlite::Connection, Option<i32>>)
    ensures
        r is Ok ==> !has_users_table(r->Ok_0),
{
    match rusqlite::Connection::open_in_memory() {
        Ok(c) => Ok(c),
        Err(e) => Err(e.sqlite_extended_error_code()),
    }
}

/// Relies on rusqlite::Connection::execute with
/// `CREATE TABLE IF NOT EXISTS users (...)`: afterwards the table exists, an
/// existing one as it was. On an in-memory database the statement does not
/// fail (running out of memory aside).
#[verifier::external_body]
pub(crate) fn execute_create_users(c: &mut rusqlite::Connection) -> (r: Result<usize, Option<i32>>)
    ensures
        r is Ok,
        has_users_table(*final(c)) && rows_of(*final(c)) == rows_of(*old(c)),
{
    match c.execute("CREATE TABLE IF NOT EXISTS users (id INTEGER PRIMARY KEY, name TEXT NOT NULL)", ()) {
        Ok(v) => Ok(v),
        Err(e) => Err(e.sqlite_extended_error_code()),
    }
}

/// Relies on rusqlite::Connection::execute with
/// `INSERT INTO users (id, name) VALUES (?1, ?2)`: one new row where the
/// table exists, `id` is free and the name fits; a taken `id` is refused with
/// SQLITE_CONSTRAINT_PRIMARYKEY (1555, extended codes being on); a failed
/// statement leaves the database unchanged.
#[verifier::external_body]
pub(crate) fn execute_insert(c: &mut rusqlite::Connection, id: i64, name: &str) -> (r: Result<usize, Option<i32>>)
    ensures
        !has_users_table(*old(c)) ==> r is Err,
        has_users_table(*old(c)) && users_rows(*old(c)).contains_key(id) ==> r is Err && r->Err_0 == Some(1555i32),
        has_users_table(*old(c)) && !users_rows(*old(c)).contains_key(id) && text_fits(name@) ==> r is Ok,
        r is Ok ==> r->Ok_0 == 1 && has_users_table(*final(c)) && users_rows(*final(c)) == users_rows(*old(c)).insert(id, name@),
        r is Err ==> same_state(*final(c), *old(c)),
{
    match c.execute("INSERT INTO users (id, name) VALUES (?1, ?2)", (id, name)) {
        Ok(v) => Ok(v),
        Err(e) => Err(e.sqlite_extended_error_code()),
    }
}

/// Relies on rusqlite::Connection::execute with
/// `UPDATE users SET name = ?1 WHERE id = ?2`: the count of changed rows, 0 or
/// 1 as `id` is the primary key. It succeeds where the table exists and the
/// name fits; a failed statement leaves the database unchanged.
#[verifier::external_body]
pub(crate) fn execute_update(c: &mut rusqlite::Connection, id: i64, name: &str) -> (r: Result<usize, Option<i32>>)
    ensures
        !has_users_table(*old(c)) ==> r is Err,
        has_users_table(*old(c)) && text_fits(name@) ==> r is Ok,
        r is Ok ==> has_users_table(*final(c)) && if users_rows(*old(c)).contains_key(id) {
            r->Ok_0 == 1 && users_rows(*final(c)) == users_rows(*old(c)).insert(id, name@)
        } else {
            r->Ok_0 == 0 && users_rows(*final(c)) == users_rows(*old(c))
        },
        r is Err ==> same_state(*final(c), *old(c)),
{
    match c.execute("UPDATE users SET name = ?1 WHERE id = ?2", (name, id)) {
        Ok(v) => Ok(v),
        Err(e) => Err(e.sqlite_extended_error_code()),
    }
}

/// Relies on rusqlite::Connection::execute with
/// `DELETE FROM users WHERE id = ?1`: the count of removed rows, 0 or 1 as
/// `id` is the primary key. It succeeds where the table exists; a failed
/// statement leaves the database unchanged.
#[verifier::external_body]
pub(crate) fn execute_delete(c: &mut rusqlite::Connection, id: i64) -> (r: Result<usize, Option<i32>>)
    ensures
        !has_users_table(*old(c)) ==> r is Err,
        has_users_table(*old(c)) ==> r is Ok,
        r is Ok ==> has_users_table(*final(c)) && if users_rows(*old(c)).contains_key(id) {
            r->Ok_0 == 1 && users_rows(*final(c)) == users_rows(*old(c)).remove(id)
        } else {
            r->Ok_0 == 0 && users_rows(*final(c)) == users_rows(*old(c))
        },
        r is Err ==> same_state(*final(c), *old(c)),
{
    match c.execute("DELETE FROM users WHERE id = ?1", (id,)) {
        Ok(v) => Ok(v),
        Err(e) => Err(e.sqlite_extended_error_code()),
    }
}

/// Relies on rusqlite::Connection::prepare and Statement::query_map with
/// `SELECT id, name FROM users`: every row once, in the order SQLite walks
/// them; it succeeds where the table exists, every stored name being text.
#[verifier::external_body]
pub(crate) fn query_all(c: &rusqlite::Connection) -> (r: Result<Vec<(i64, String)>, Option<i32>>)
    ensures
        !has_users_table(*c) ==> r is Err,
        has_users_table(*c) ==> r is Ok,
        r is Ok ==> has_users_table(*c) && lists_exactly(pairs_view(r->Ok_0@), users_rows(*c)),
{
    let all = c.prepare("SELECT id, name FROM users").and_then(|mut stmt| {
        stmt.query_map((), |row| Ok((row.get(0)?, row.get(1)?)))?.collect()
    });
    match all {
        Ok(v) => Ok(v),
        Err(e) => Err(e.sqlite_extended_error_code()),
    }
}

/// Relies on rusqlite::Connection::query_row and OptionalExtension::optional
/// with `SELECT id, name FROM users WHERE id = ?1`: the row of `id`, or
/// `None`; it succeeds where the table exists.
#[verifier::external_body]
pub(crate) fn query_by_id(c: &rusqlite::Connection, id: i64) -> (r: Result<Option<(i64, String)>, Option<i32>>)
    ensures
        !has_users_table(*c) ==> r is Err,
        has_users_table(*c) ==> r is Ok,
        r is Ok ==> has_users_table(*c) && match r->Ok_0 {
            Some(p) => users_rows(*c).contains_key(id) && p.0 == id && p.1@ == users_rows(*c)[id],
            None => !users_rows(*c).contains_key(id),
        },
{
    match c.query_row("SELECT id, name FROM users WHERE id = ?1", (id,), |row| Ok((row.get(0)?, row.get(1)?))).optional() {
        Ok(v) => Ok(v),
        Err(e) => Err(e.sqlite_extended_error_code()),
    }
}

} // verus!
