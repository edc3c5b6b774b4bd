use suzumi::data::{Server, User};
use suzumi::db::DbView;

fn scratch_store() -> DbView {
    let db = sled::Config::new().temporary(true).open().expect("open scratch store");
    DbView {
        user: db.open_tree("user").expect("user tree"),
        server: db.open_tree("server").expect("server tree"),
    }
}

#[test]
fn missing_records_read_as_defaults() {
    let store = scratch_store();
    let user: User = store.get(1).expect("get user");
    assert_eq!(user, User::new());
    let server: Server = store.get(1).expect("get server");
    assert_eq!(server, Server::default());
}

#[test]
fn put_then_get_round_trips() {
    let store = scratch_store();
    let user = User { cash: 250, exp: 1_000, last_allowance: 123_456 };
    store.put(42, &user).expect("put user");
    assert_eq!(store.get::<User>(42).expect("get user"), user);

    let server = Server { welcome_ch: 1, music_ch: 2, dev_ch: 3, spam_ch: 4 };
    store.put(42, &server).expect("put server");
    assert_eq!(store.get::<Server>(42).expect("get server"), server);

    // The two record kinds live in separate trees under the same id.
    assert_eq!(store.get::<User>(42).expect("get user again"), user);
}

#[test]
fn keys_are_big_endian_ids() {
    let store = scratch_store();
    let user = User { cash: 9, exp: 8, last_allowance: 7 };
    store.put(0x0102, &user).expect("put user");
    let raw = store
        .user
        .get([0u8, 0, 0, 0, 0, 0, 1, 2])
        .expect("raw get")
        .expect("value present");
    assert_eq!(raw.as_ref(), user.to_bytes().as_slice());
}

#[test]
fn malformed_records_read_as_defaults() {
    let store = scratch_store();
    store.user.insert(5u64.to_be_bytes(), &b"short"[..]).expect("plant a malformed value");
    let user: User = store.get(5).expect("get user");
    assert_eq!(user, User::new());

    let oversized = vec![0xabu8; 33];
    store.server.insert(6u64.to_be_bytes(), oversized).expect("plant an oversized value");
    let server: Server = store.get(6).expect("get server");
    assert_eq!(server, Server::default());
}

#[test]
fn delete_forgets_the_record() {
    let store = scratch_store();
    let server = Server { welcome_ch: 10, music_ch: 20, dev_ch: 30, spam_ch: 40 };
    store.put(3, &server).expect("put server");
    assert_eq!(store.get::<Server>(3).expect("get server"), server);
    store.delete::<Server>(3).expect("delete server");
    assert_eq!(store.get::<Server>(3).expect("get server"), Server::default());
}
