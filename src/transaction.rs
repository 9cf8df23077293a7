use vstd::prelude::*;

use crate::auth::{User, UserId};
use crate::game_struct::{
    default_player, level_events, ActionContext, GameError, Player, PlayerEvent,
};

verus! {

/// What the store transaction around a mutation has to do next.
#[derive(Debug, Clone, PartialEq, Eq)]
pub enum TxAction {
    /// Upsert `ledger` under the user's identity, then commit.
    Commit { ledger: Player, events: Vec<PlayerEvent> },
    /// Abort the transaction and report the error; nothing is written.
    Abort(GameError),
}

/// The ledger a transaction for `user` starts from: the stored one, or a
/// fresh one when the store holds none.
pub open spec fn starting_ledger(user: User, loaded: Option<Player>) -> Player {
    match loaded {
        Some(p) => p,
        None => default_player(Some(user.id)),
    }
}

/// The stored ledger of `user`, or a fresh one.
pub fn player_or_create(user: &User, loaded: Option<Player>) -> (r: Player)
    ensures
        r == starting_ledger(*user, loaded),
{
    match loaded {
        Some(p) => p,
        None => Player::new(user),
    }
}

/// `action` is what a transaction running `f` on the ledger `loaded` of
/// `user` decides.
pub open spec fn execute_outcome<F: FnOnce(Player) -> Result<Player, GameError>>(
    user: User,
    loaded: Option<Player>,
    f: F,
    action: TxAction,
) -> bool {
    let start = starting_ledger(user, loaded);
    match action {
        TxAction::Commit { ledger, events } => f.ensures((start,), Ok(ledger)) && events@
            == level_events(start, ledger),
        TxAction::Abort(e) => f.ensures((start,), Err(e)),
    }
}

/// Runs the mutation `f` on the ledger loaded for `user` inside a store
/// transaction, materialising a fresh ledger when none was stored, and says
/// whether to commit the mutated ledger or to abort.
pub fn execute<F: FnOnce(Player) -> Result<Player, GameError>>(
    user: &User,
    loaded: Option<Player>,
    f: F,
) -> (r: TxAction)
    requires
        f.requires((starting_ledger(*user, loaded),)),
    ensures
        execute_outcome(*user, loaded, f, r),
{
    let mut ledger = player_or_create(user, loaded);
    match ActionContext::do_with(&mut ledger, f) {
        Ok(events) => TxAction::Commit { ledger, events },
        Err(e) => TxAction::Abort(e),
    }
}

/// The store, keyed by identity, once `action` has been carried out for
/// `user`.
pub open spec fn stored_after(
    store: Map<UserId, Player>,
    user: User,
    action: TxAction,
) -> Map<UserId, Player> {
    match action {
        TxAction::Commit { ledger, .. } => store.insert(user.id, ledger),
        TxAction::Abort(_) => store,
    }
}

/// A mutation that fails leaves the store exactly as it was.
pub proof fn lemma_failed_mutation_keeps_store<F: FnOnce(Player) -> Result<Player, GameError>>(
    store: Map<UserId, Player>,
    user: User,
    loaded: Option<Player>,
    f: F,
    action: TxAction,
)
    requires
        execute_outcome(user, loaded, f, action),
        forall|res: Result<Player, GameError>| #[trigger]
            f.ensures((starting_ledger(user, loaded),), res) ==> res is Err,
    ensures
        action is Abort,
        stored_after(store, user, action) == store,
{
    if let TxAction::Commit { ledger, events } = action {
        assert(f.ensures((starting_ledger(user, loaded),), Ok::<Player, GameError>(ledger)));
    }
}

/// A mutation that succeeds leaves its ledger stored under the user's
/// identity, created if it was absent, and touches no other identity.
pub proof fn lemma_committed_ledger_is_stored(
    store: Map<UserId, Player>,
    user: User,
    ledger: Player,
    events: Vec<PlayerEvent>,
)
    ensures
        stored_after(store, user, TxAction::Commit { ledger, events }).contains_key(user.id),
        stored_after(store, user, TxAction::Commit { ledger, events })[user.id] == ledger,
        forall|id: UserId|
            id != user.id && #[trigger] store.contains_key(id) ==> stored_after(
                store,
                user,
                TxAction::Commit { ledger, events },
            )[id] == store[id],
{
}

} // verus!
