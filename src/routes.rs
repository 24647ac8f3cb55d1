//! The REST endpoints as functions from a request's values to a reply: which
//! store call each makes and how its outcome becomes a status and a body.
use vstd::prelude::*;

use crate::sqlite::{lists_exactly, pairs_view, text_fits};
use crate::database::{Db, StoreError};

verus! {

/// rand's thread-local generator: any `i64` may come back.
pub assume_specification<T>[ rand::random::<T> ]() -> (r: T)
    where
        rand::distributions::Standard: rand::distributions::Distribution<T>,
;

/// A user as the service sends it.
#[derive(Clone, Debug)]
pub struct User {
    pub id: i64,
    pub name: String,
}

/// What an endpoint answers.
#[derive(Debug)]
pub enum Reply {
    /// 200 with the greeting text.
    Greeting,
    /// 200 with one user.
    One(User),
    /// 200 with a list of users.
    Many(Vec<User>),
    /// 204 with no body.
    NoContent,
    /// 404.
    NotFound,
    /// 500.
    ServerError,
}

impl Reply {
    /// The HTTP status code of the reply.
    pub fn status(&self) -> (r: u16)
        ensures
            r == match self {
                Reply::Greeting | Reply::One(_) | Reply::Many(_) => 200u16,
                Reply::NoContent => 204u16,
                Reply::NotFound => 404u16,
                Reply::ServerError => 500u16,
            },
    {
        match self {
            Reply::Greeting | Reply::One(_) | Reply::Many(_) => 200,
            Reply::NoContent => 204,
            Reply::NotFound => 404,
            Reply::ServerError => 500,
        }
    }
}

/// The users of a list reply, as `(id, name)` pairs.
pub open spec fn users_view(v: Seq<User>) -> Seq<(i64, Seq<char>)> {
    v.map_values(|u: User| (u.id, u.name@))
}

/// The text that `GET /` answers with.
pub fn handler() -> (r: &'static str)
    ensures
        r@ == "Hello, World!"@,
{
    proof {
        reveal_strlit("Hello, World!");
    }
    "Hello, World!"
}

/// The reply to an insert of `(id, name)` that gave `res`.
pub fn reply_for_insert(id: i64, name: String, res: Result<usize, StoreError>) -> (r: Reply)
    ensures
        match res {
            Ok(_) => r is One && r->One_0.id == id && r->One_0.name@ == name@,
            Err(_) => r is ServerError,
        },
{
    match res {
        Ok(_) => Reply::One(User { id, name }),
        Err(_) => Reply::ServerError,
    }
}

/// The reply to a listing that gave `res`: its users in the same order.
pub fn reply_for_listing(res: Result<Vec<(i64, String)>, StoreError>) -> (r: Reply)
    ensures
        match res {
            Ok(rows) => r is Many && users_view(r->Many_0@) == pairs_view(rows@),
            Err(_) => r is ServerError,
        },
{
    match res {
        Ok(rows) => {
            let mut users: Vec<User> = Vec::new();
            let mut i: usize = 0;
            while i < rows.len()
                invariant
                    0 <= i <= rows@.len(),
                    users_view(users@) =~= pairs_view(rows@).take(i as int),
                decreases rows@.len() - i,
            {
                let id = rows[i].0;
                let name = rows[i].1.clone();
                assert(name@ == rows@[i as int].1@);
                let ghost before = users@;
                users.push(User { id, name });
                proof {
                    assert(users@ == before.push(User { id, name }));
                    assert(users_view(users@) =~= users_view(before).push((id, name@)));
                    assert(pairs_view(rows@).take(i + 1) =~= pairs_view(rows@).take(i as int).push(
                        (id, name@),
                    ));
                }
                i = i + 1;
            }
            proof {
                assert(pairs_view(rows@).take(rows@.len() as int) =~= pairs_view(rows@));
            }
            Reply::Many(users)
        },
        Err(_) => Reply::ServerError,
    }
}

/// The reply to a lookup that gave `res`: the user, or 404.
pub fn reply_for_lookup(res: Result<Option<(i64, String)>, StoreError>) -> (r: Reply)
    ensures
        match res {
            Ok(Some(p)) => r is One && r->One_0.id == p.0 && r->One_0.name@ == p.1@,
            Ok(None) => r is NotFound,
            Err(_) => r is ServerError,
        },
{
    match res {
        Ok(Some((id, name))) => Reply::One(User { id, name }),
        Ok(None) => Reply::NotFound,
        Err(_) => Reply::ServerError,
    }
}

/// The reply to an update of `id` to `name` that gave `res`: 404 where no
/// row changed.
pub fn reply_for_update(id: i64, name: String, res: Result<usize, StoreError>) -> (r: Reply)
    ensures
        match res {
            Ok(n) => if n == 0 {
                r is NotFound
            } else {
                r is One && r->One_0.id == id && r->One_0.name@ == name@
            },
            Err(_) => r is ServerError,
        },
{
    match res {
        Ok(0) => Reply::NotFound,
        Ok(_) => Reply::One(User { id, name }),
        Err(_) => Reply::ServerError,
    }
}

/// The reply to a delete that gave `res`: 204, or 404 where no row went.
pub fn reply_for_delete(res: Result<usize, StoreError>) -> (r: Reply)
    ensures
        match res {
            Ok(n) => if n == 0 {
                r is NotFound
            } else {
                r is NoContent
            },
            Err(_) => r is ServerError,
        },
{
    match res {
        Ok(0) => Reply::NotFound,
        Ok(_) => Reply::NoContent,
        Err(_) => Reply::ServerError,
    }
}

/// `POST /users` once the id is drawn: inserts `(id, name)` and answers with
/// the new user; a taken `id` gives 500, as does any other store failure.
pub fn create_user_with_id(db: &mut Db, id: i64, name: String) -> (r: Reply)
    ensures
        !old(db).ready() || old(db)@.contains_key(id) ==> r is ServerError,
        old(db).ready() && !old(db)@.contains_key(id) && text_fits(name@) ==> r is One,
        r is One ==> r->One_0.id == id && r->One_0.name@ == name@ && final(db).ready()
            && final(db)@ == old(db)@.insert(id, name@),
        r is ServerError ==> old(db).unchanged(final(db)),
        r is One || r is ServerError,
{
    let res = db.insert_user(id, name.as_str());
    reply_for_insert(id, name, res)
}

/// `POST /users`: draws a random id and inserts the user under it; on a
/// ready store only a drawn id that is taken fails.
pub fn create_user(db: &mut Db, name: String) -> (r: Reply)
    ensures
        !old(db).ready() ==> r is ServerError,
        old(db).ready() && text_fits(name@) && r is ServerError ==> exists|k: i64| old(db)@.contains_key(k),
        r is One ==> r->One_0.name@ == name@ && !old(db)@.contains_key(r->One_0.id) && final(db).ready()
            && final(db)@ == old(db)@.insert(r->One_0.id, name@),
        r is ServerError ==> old(db).unchanged(final(db)),
        r is One || r is ServerError,
{
    let id: i64 = rand::random::<i64>();
    create_user_with_id(db, id, name)
}

/// `GET /users`: every user, or 500.
pub fn list_users(db: &Db) -> (r: Reply)
    ensures
        !db.ready() ==> r is ServerError,
        db.ready() ==> r is Many,
        r is Many ==> lists_exactly(users_view(r->Many_0@), db@),
        r is Many || r is ServerError,
{
    reply_for_listing(db.get_all_users())
}

/// `GET /users/{id}`: the user, 404 where there is none, or 500.
pub fn get_user(db: &Db, id: i64) -> (r: Reply)
    ensures
        !db.ready() ==> r is ServerError,
        db.ready() ==> r is One || r is NotFound,
        r is One ==> r->One_0.id == id && db@.contains_key(id) && r->One_0.name@ == db@[id],
        r is NotFound ==> !db@.contains_key(id),
        r is One || r is NotFound || r is ServerError,
{
    reply_for_lookup(db.get_user_by_id(id))
}

/// `PUT /users/{id}`: renames the user and answers with it, 404 where there
/// is none, or 500.
pub fn update_user(db: &mut Db, id: i64, name: String) -> (r: Reply)
    ensures
        !old(db).ready() ==> r is ServerError,
        old(db).ready() && text_fits(name@) ==> r is One || r is NotFound,
        r is One ==> r->One_0.id == id && r->One_0.name@ == name@ && old(db)@.contains_key(id)
            && final(db)@ == old(db)@.insert(id, name@),
        r is NotFound ==> !old(db)@.contains_key(id) && final(db)@ == old(db)@,
        r is ServerError ==> old(db).unchanged(final(db)),
        r is One || r is NotFound || r is ServerError,
{
    let res = db.update_user(id, name.as_str());
    reply_for_update(id, name, res)
}

/// `DELETE /users/{id}`: 204 once removed, 404 where there is none, or 500.
pub fn delete_user(db: &mut Db, id: i64) -> (r: Reply)
    ensures
        !old(db).ready() ==> r is ServerError,
        old(db).ready() ==> r is NoContent || r is NotFound,
        r is NoContent ==> old(db)@.contains_key(id) && final(db)@ == old(db)@.remove(id),
        r is NotFound ==> !old(db)@.contains_key(id) && final(db)@ == old(db)@,
        r is ServerError ==> old(db).unchanged(final(db)),
        r is NoContent || r is NotFound || r is ServerError,
{
    reply_for_delete(db.delete_user(id))
}

} // verus!
