use std::collections::HashMap;

use baryonic::auth::{User, UserId};
use baryonic::game_struct::{Currency, GameError, Player, PlayerEvent};
use baryonic::transaction::{execute, player_or_create, TxAction};

/// Runs one transaction against an in-memory store, as the store layer would.
fn run(
    store: &mut HashMap<UserId, Player>,
    user: &User,
    f: impl FnOnce(Player) -> Result<Player, GameError>,
) -> Result<Vec<PlayerEvent>, GameError> {
    let loaded = store.get(&user.id).copied();
    match execute(user, loaded, f) {
        TxAction::Commit { ledger, events } => {
            store.insert(user.id, ledger);
            Ok(events)
        }
        TxAction::Abort(e) => Err(e),
    }
}

fn user42() -> User {
    User { key_ref_id: 9, id: UserId(42) }
}

#[test]
fn grant_creates_ledger_on_first_access() {
    let mut store = HashMap::new();
    let r = run(&mut store, &user42(), |mut p: Player| {
        p.grant_currency(Currency::Coins, 150);
        Ok(p)
    });
    assert_eq!(r, Ok(vec![]));
    let stored = store.get(&UserId(42)).copied().unwrap();
    assert_eq!(stored.balance(Currency::Coins), 150);
    assert_eq!(stored.level, 1);
    assert_eq!(stored.id, Some(UserId(42)));
}

#[test]
fn take_beyond_balance_aborts_without_writing() {
    let mut store = HashMap::new();
    let mut existing = Player::new(&user42());
    existing.grant_currency(Currency::Coins, 100);
    store.insert(UserId(42), existing);
    let r = run(&mut store, &user42(), |mut p: Player| {
        p.take_currency(Currency::Coins, 150)?;
        Ok(p)
    });
    assert_eq!(r, Err(GameError::NotEnough { currency: Currency::Coins, shortfall: 50 }));
    assert_eq!(store.get(&UserId(42)).copied().unwrap().balance(Currency::Coins), 100);
    assert_eq!(store.len(), 1);
}

#[test]
fn failed_mutation_on_absent_ledger_writes_nothing() {
    let mut store = HashMap::new();
    let r = run(&mut store, &user42(), |mut p: Player| {
        p.grant_currency(Currency::Coins, 5);
        Err(GameError::IllegalAction)
    });
    assert_eq!(r, Err(GameError::IllegalAction));
    assert!(store.is_empty());
}

#[test]
fn level_up_is_reported_on_commit() {
    let mut store = HashMap::new();
    let r = run(&mut store, &user42(), |mut p: Player| {
        p.level = 3;
        Ok(p)
    });
    assert_eq!(r, Ok(vec![PlayerEvent::LevelUp]));
    assert_eq!(store.get(&UserId(42)).unwrap().level, 3);
}

#[test]
fn stored_ledger_is_preferred() {
    let mut p = Player::new(&user42());
    p.xp = 12;
    assert_eq!(player_or_create(&user42(), Some(p)), p);
    assert_eq!(player_or_create(&user42(), None), Player::new(&user42()));
}

#[test]
fn execute_decides_commit_and_abort() {
    let a = execute(&user42(), None, |p: Player| Ok(p));
    assert_eq!(a, TxAction::Commit { ledger: Player::new(&user42()), events: vec![] });
    let b = execute(&user42(), None, |_p: Player| Err(GameError::IllegalAction));
    assert_eq!(b, TxAction::Abort(GameError::IllegalAction));
}
