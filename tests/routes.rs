use user_crud::database::{Db, StoreError};
use user_crud::routes::{
    create_user, create_user_with_id, delete_user, get_user, handler, list_users,
    reply_for_delete, reply_for_insert, reply_for_listing, reply_for_lookup, reply_for_update,
    update_user, Reply,
};

fn ready_db() -> Db {
    let mut db = Db::new().unwrap();
    db.init_table().unwrap();
    db
}

#[test]
fn greeting_text() {
    assert_eq!(handler(), "Hello, World!");
    assert_eq!(Reply::Greeting.status(), 200);
}

#[test]
fn create_get_delete_end_to_end() {
    let mut db = ready_db();
    let created = create_user(&mut db, "Carol".to_string());
    assert_eq!(created.status(), 200);
    let user = match created {
        Reply::One(u) => u,
        other => panic!("unexpected reply {:?}", other),
    };
    assert_eq!(user.name, "Carol");

    let fetched = get_user(&db, user.id);
    assert_eq!(fetched.status(), 200);
    match fetched {
        Reply::One(u) => {
            assert_eq!(u.id, user.id);
            assert_eq!(u.name, "Carol");
        }
        other => panic!("unexpected reply {:?}", other),
    }

    let deleted = delete_user(&mut db, user.id);
    assert_eq!(deleted.status(), 204);
    assert!(matches!(deleted, Reply::NoContent));

    let gone = get_user(&db, user.id);
    assert_eq!(gone.status(), 404);
    assert!(matches!(gone, Reply::NotFound));
}

#[test]
fn duplicate_id_gives_server_error() {
    let mut db = ready_db();
    let first = create_user_with_id(&mut db, 42, "Ann".to_string());
    assert_eq!(first.status(), 200);
    let second = create_user_with_id(&mut db, 42, "Ben".to_string());
    assert!(matches!(second, Reply::ServerError));
    assert_eq!(second.status(), 500);
    match get_user(&db, 42) {
        Reply::One(u) => assert_eq!(u.name, "Ann"),
        other => panic!("unexpected reply {:?}", other),
    }
}

#[test]
fn list_users_returns_every_user() {
    let mut db = ready_db();
    assert!(matches!(list_users(&db), Reply::Many(ref v) if v.is_empty()));
    create_user_with_id(&mut db, 1, "Alice".to_string());
    create_user_with_id(&mut db, 2, "Bob".to_string());
    let reply = list_users(&db);
    assert_eq!(reply.status(), 200);
    match reply {
        Reply::Many(v) => {
            let mut pairs: Vec<(i64, String)> = v.into_iter().map(|u| (u.id, u.name)).collect();
            pairs.sort();
            assert_eq!(pairs, vec![(1, "Alice".to_string()), (2, "Bob".to_string())]);
        }
        other => panic!("unexpected reply {:?}", other),
    }
}

#[test]
fn update_user_reply() {
    let mut db = ready_db();
    let missing = update_user(&mut db, 5, "x".to_string());
    assert!(matches!(missing, Reply::NotFound));
    assert_eq!(missing.status(), 404);
    create_user_with_id(&mut db, 5, "Old".to_string());
    match update_user(&mut db, 5, "New".to_string()) {
        Reply::One(u) => {
            assert_eq!(u.id, 5);
            assert_eq!(u.name, "New");
        }
        other => panic!("unexpected reply {:?}", other),
    }
    match get_user(&db, 5) {
        Reply::One(u) => assert_eq!(u.name, "New"),
        other => panic!("unexpected reply {:?}", other),
    }
}

#[test]
fn delete_missing_user_is_not_found() {
    let mut db = ready_db();
    assert_eq!(delete_user(&mut db, 999).status(), 404);
    assert_eq!(get_user(&db, 999).status(), 404);
}

#[test]
fn store_failure_gives_server_error() {
    let mut db = Db::new().unwrap();
    assert_eq!(list_users(&db).status(), 500);
    assert_eq!(get_user(&db, 1).status(), 500);
    assert_eq!(update_user(&mut db, 1, "x".to_string()).status(), 500);
    assert_eq!(delete_user(&mut db, 1).status(), 500);
    assert_eq!(create_user(&mut db, "x".to_string()).status(), 500);
}

#[test]
fn reply_mapping_for_each_store_outcome() {
    assert_eq!(reply_for_insert(3, "Cy".to_string(), Ok(1)).status(), 200);
    assert_eq!(
        reply_for_insert(3, "Cy".to_string(), Err(StoreError::ConstraintViolation)).status(),
        500
    );
    match reply_for_lookup(Ok(Some((8, "Hal".to_string())))) {
        Reply::One(u) => {
            assert_eq!(u.id, 8);
            assert_eq!(u.name, "Hal");
        }
        other => panic!("unexpected reply {:?}", other),
    }
    assert_eq!(reply_for_lookup(Ok(None)).status(), 404);
    assert_eq!(reply_for_lookup(Err(StoreError::Unavailable)).status(), 500);
    assert_eq!(reply_for_update(1, "x".to_string(), Ok(0)).status(), 404);
    assert_eq!(reply_for_update(1, "x".to_string(), Ok(1)).status(), 200);
    assert_eq!(reply_for_update(1, "x".to_string(), Err(StoreError::Other)).status(), 500);
    assert_eq!(reply_for_delete(Ok(0)).status(), 404);
    assert_eq!(reply_for_delete(Ok(1)).status(), 204);
    assert_eq!(reply_for_delete(Err(StoreError::Unavailable)).status(), 500);
    match reply_for_listing(Ok(vec![(2, "b".to_string()), (1, "a".to_string())])) {
        Reply::Many(v) => {
            let pairs: Vec<(i64, String)> = v.into_iter().map(|u| (u.id, u.name)).collect();
            assert_eq!(pairs, vec![(2, "b".to_string()), (1, "a".to_string())]);
        }
        other => panic!("unexpected reply {:?}", other),
    }
    assert_eq!(reply_for_listing(Err(StoreError::Other)).status(), 500);
}
