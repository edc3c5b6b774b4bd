use suzumi::data::User;
use suzumi::db::DbView;
use suzumi::reservation::{CostReservation, PLAYER_COST, SUGGEST_COST};

fn scratch_store() -> DbView {
    let db = sled::Config::new().temporary(true).open().expect("open scratch store");
    DbView {
        user: db.open_tree("user").expect("user tree"),
        server: db.open_tree("server").expect("server tree"),
    }
}

#[test]
fn costs_match_the_commands() {
    assert_eq!(PLAYER_COST, 5);
    assert_eq!(SUGGEST_COST, 10);
}

#[test]
fn try_reserve_refuses_a_short_wallet() {
    let poor = User { cash: 4, exp: 0, last_allowance: 0 };
    assert!(CostReservation::try_reserve(1, &poor, PLAYER_COST).is_none());

    let exact = User { cash: 5, exp: 0, last_allowance: 0 };
    let (debited, guard) =
        CostReservation::try_reserve(1, &exact, PLAYER_COST).expect("exact balance suffices");
    assert_eq!(debited.cash, 0);
    assert_eq!(guard.owner(), 1);
}

#[test]
fn reserve_debits_a_local_copy() {
    let user = User { cash: 100, exp: 7, last_allowance: 3 };
    let (debited, guard) = CostReservation::reserve(21, &user, PLAYER_COST);
    assert_eq!(debited.cash, 95);
    assert_eq!(debited.exp, 7);
    assert_eq!(debited.last_allowance, 3);
    assert_eq!(guard.owner(), 21);
    assert_eq!(*guard.record(), debited);
}

#[test]
fn committed_reservation_yields_exactly_the_debited_write() {
    let user = User { cash: 100, exp: 0, last_allowance: 0 };
    let (debited, guard) = CostReservation::reserve(21, &user, SUGGEST_COST);
    let (owner, write) = guard.commit();
    assert_eq!(owner, 21);
    assert_eq!(write, debited);

    let (_, guard) = CostReservation::reserve(22, &user, SUGGEST_COST);
    let resolved = guard.resolve(true);
    assert_eq!(resolved, Some((22, User { cash: 90, exp: 0, last_allowance: 0 })));
}

#[test]
fn expired_reservation_yields_no_write() {
    let user = User { cash: 100, exp: 0, last_allowance: 0 };
    let (_, guard) = CostReservation::reserve(21, &user, PLAYER_COST);
    guard.expire();

    let (_, guard) = CostReservation::reserve(21, &user, PLAYER_COST);
    assert_eq!(guard.resolve(false), None);
}

#[test]
fn exact_balance_commit_persists_zero() {
    // Balance 5, cost 5: the reservation leaves the local balance at 0, and
    // on the committed (successful) path the stored balance ends at 0.
    let store = scratch_store();
    let user_id = 77u64;
    let pre = User { cash: 5, exp: 40, last_allowance: 9 };
    store.put(user_id, &pre).expect("seed the store");

    let (debited, guard) = CostReservation::reserve(user_id, &pre, PLAYER_COST);
    assert_eq!(debited.cash, 0);

    let (owner, write) = guard.commit();
    store.put(owner, &write).expect("persist the committed debit");

    let stored: User = store.get(user_id).expect("read back");
    assert_eq!(stored.cash, 0);
    assert_eq!(stored.exp, 40);
    assert_eq!(stored.last_allowance, 9);
}

#[test]
fn expired_reservation_leaves_stored_balance_untouched() {
    let store = scratch_store();
    let user_id = 78u64;
    let pre = User { cash: 5, exp: 0, last_allowance: 0 };
    store.put(user_id, &pre).expect("seed the store");

    let (debited, guard) = CostReservation::reserve(user_id, &pre, PLAYER_COST);
    assert_eq!(debited.cash, 0);
    guard.expire();

    let stored: User = store.get(user_id).expect("read back");
    assert_eq!(stored.cash, 5);
}
