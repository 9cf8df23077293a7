use vstd::prelude::*;

use crate::auth::{User, UserId};

verus! {

/// Identifier of a game object.
#[derive(Debug, Clone, Copy, PartialEq, Eq, Structural, PartialOrd, Ord, Hash)]
pub struct ItemId(pub i64);

impl From<i64> for ItemId {
    fn from(v: i64) -> (r: ItemId)
        ensures
            r.0 == v,
    {
        ItemId(v)
    }
}

impl vstd::std_specs::convert::FromSpecImpl<i64> for ItemId {
    open spec fn obeys_from_spec() -> bool {
        true
    }

    open spec fn from_spec(v: i64) -> ItemId {
        ItemId(v)
    }
}

/// The fixed set of currencies a ledger holds.
#[derive(Debug, Clone, Copy, PartialEq, Eq, Structural, Hash)]
pub enum Currency {
    Coins,
    Keks,
    Keys,
    Fragments,
}

/// Business errors raised by a mutation of a ledger.
#[derive(Debug, Clone, Copy, PartialEq, Eq, Structural)]
pub enum GameError {
    /// The balance of `currency` falls `shortfall` short of what was asked.
    NotEnough { currency: Currency, shortfall: i64 },
    /// The mutation refuses the action in the ledger's current state.
    IllegalAction,
}

/// Domain events derived from the difference between two ledger states.
#[derive(Debug, Clone, Copy, PartialEq, Eq, Structural)]
pub enum PlayerEvent {
    LevelUp,
}

pub open spec fn currency_label(c: Currency) -> Seq<char> {
    match c {
        Currency::Coins => "Coins"@,
        Currency::Keks => "Keks"@,
        Currency::Keys => "Keys"@,
        Currency::Fragments => "Fragments"@,
    }
}

impl Currency {
    /// Display name of the currency as a game object, `Currency:<Variant>`.
    pub fn get_name(&self) -> (r: String)
        ensures
            r@ == "Currency:"@ + currency_label(*self),
    {
        let r = match self {
            Currency::Coins => "Currency:Coins".to_owned(),
            Currency::Keks => "Currency:Keks".to_owned(),
            Currency::Keys => "Currency:Keys".to_owned(),
            Currency::Fragments => "Currency:Fragments".to_owned(),
        };
        proof {
            reveal_strlit("Currency:Coins");
            reveal_strlit("Currency:Keks");
            reveal_strlit("Currency:Keys");
            reveal_strlit("Currency:Fragments");
            reveal_strlit("Currency:");
            reveal_strlit("Coins");
            reveal_strlit("Keks");
            reveal_strlit("Keys");
            reveal_strlit("Fragments");
            assert(r@ =~= "Currency:"@ + currency_label(*self));
        }
        r
    }

    /// Every currency shares the item id zero.
    pub fn get_id(&self) -> (r: ItemId)
        ensures
            r.0 == 0,
    {
        ItemId(0)
    }
}

/// Balances all zero.
pub open spec fn zero_balances() -> CurrencyMap {
    CurrencyMap { coins: 0, keks: 0, keys: 0, fragments: 0 }
}

/// Balances of every currency.
#[derive(Debug, Clone, Copy, PartialEq, Eq, Structural)]
pub struct CurrencyMap {
    pub coins: i64,
    pub keks: i64,
    pub keys: i64,
    pub fragments: i64,
}

impl CurrencyMap {
    pub open spec fn spec_get(self, c: Currency) -> i64 {
        match c {
            Currency::Coins => self.coins,
            Currency::Keks => self.keks,
            Currency::Keys => self.keys,
            Currency::Fragments => self.fragments,
        }
    }

    pub open spec fn spec_set(self, c: Currency, v: i64) -> CurrencyMap {
        match c {
            Currency::Coins => CurrencyMap { coins: v, ..self },
            Currency::Keks => CurrencyMap { keks: v, ..self },
            Currency::Keys => CurrencyMap { keys: v, ..self },
            Currency::Fragments => CurrencyMap { fragments: v, ..self },
        }
    }

    /// Writing one balance leaves the others alone.
    pub proof fn lemma_set_get(self, c: Currency, v: i64)
        ensures
            forall|d: Currency| #[trigger]
                self.spec_set(c, v).spec_get(d) == if d == c {
                    v
                } else {
                    self.spec_get(d)
                },
    {
    }

    /// No balance is negative.
    pub open spec fn wf(self) -> bool {
        forall|c: Currency| #[trigger] self.spec_get(c) >= 0
    }

    /// All balances zero.
    pub fn new() -> (r: CurrencyMap)
        ensures
            r == zero_balances(),
            forall|c: Currency| #[trigger] r.spec_get(c) == 0,
    {
        CurrencyMap { coins: 0, keks: 0, keys: 0, fragments: 0 }
    }

    pub fn get(&self, c: Currency) -> (r: i64)
        ensures
            r == self.spec_get(c),
    {
        match c {
            Currency::Coins => self.coins,
            Currency::Keks => self.keks,
            Currency::Keys => self.keys,
            Currency::Fragments => self.fragments,
        }
    }

    pub fn set(&mut self, c: Currency, v: i64)
        ensures
            *final(self) == old(self).spec_set(c, v),
    {
        match c {
            Currency::Coins => self.coins = v,
            Currency::Keks => self.keks = v,
            Currency::Keys => self.keys = v,
            Currency::Fragments => self.fragments = v,
        }
    }
}

impl Default for CurrencyMap {
    fn default() -> (r: CurrencyMap)
        ensures
            r == zero_balances(),
    {
        CurrencyMap::new()
    }
}

/// A user's economy state.
#[derive(Debug, Clone, Copy, PartialEq, Eq, Structural)]
pub struct Player {
    pub id: Option<UserId>,
    pub level: i64,
    pub xp: i64,
    pub energy: i64,
    pub currencies: CurrencyMap,
}

/// The state a ledger starts from: level 1, no xp, full energy, no money.
pub open spec fn default_player(id: Option<UserId>) -> Player {
    Player {
        id,
        level: 1,
        xp: 0,
        energy: 100,
        currencies: zero_balances(),
    }
}

impl Default for Player {
    fn default() -> (r: Player)
        ensures
            r == default_player(None),
    {
        Player { id: None, level: 1, xp: 0, energy: 100, currencies: CurrencyMap::new() }
    }
}

/// Read-only view of a player's holdings.
pub struct Inventory<'a>(pub &'a Player);

impl Player {
    pub open spec fn wf(self) -> bool {
        self.currencies.wf()
    }

    /// Whether no balance is negative.
    pub fn is_wf(&self) -> (r: bool)
        ensures
            r == self.wf(),
    {
        let c = &self.currencies;
        let r = c.coins >= 0 && c.keks >= 0 && c.keys >= 0 && c.fragments >= 0;
        proof {
            if !r {
                if c.coins < 0 {
                    assert(c.spec_get(Currency::Coins) < 0);
                } else if c.keks < 0 {
                    assert(c.spec_get(Currency::Keks) < 0);
                } else if c.keys < 0 {
                    assert(c.spec_get(Currency::Keys) < 0);
                } else {
                    assert(c.spec_get(Currency::Fragments) < 0);
                }
            }
        }
        r
    }

    /// Fresh ledger of `user`.
    pub fn new(user: &User) -> (r: Player)
        ensures
            r == default_player(Some(user.id)),
            r.wf(),
    {
        Player { id: Some(user.id), level: 1, xp: 0, energy: 100, currencies: CurrencyMap::new() }
    }

    pub fn get_inventory(&self) -> (r: Inventory<'_>)
        ensures
            *r.0 == *self,
    {
        Inventory(self)
    }

    pub fn balance(&self, curr: Currency) -> (r: i64)
        ensures
            r == self.currencies.spec_get(curr),
    {
        self.currencies.get(curr)
    }

    /// Withdraws `amount` of `curr`; fails, leaving the ledger as it was,
    /// with the exact shortfall when the balance is below `amount`.
    pub fn take_currency(&mut self, curr: Currency, amount: i64) -> (r: Result<(), GameError>)
        requires
            old(self).wf(),
            0 <= amount,
        ensures
            old(self).currencies.spec_get(curr) >= amount ==> r is Ok,
            old(self).currencies.spec_get(curr) < amount ==> r == Err::<(), GameError>(
                GameError::NotEnough {
                    currency: curr,
                    shortfall: (amount - old(self).currencies.spec_get(curr)) as i64,
                },
            ),
            *final(self) == after_take(*old(self), curr, amount),
            final(self).wf(),
    {
        proof {
            self.currencies.lemma_set_get(curr, (self.currencies.spec_get(curr) - amount) as i64);
        }
        let have = self.currencies.get(curr);
        if have < amount {
            return Err(GameError::NotEnough { currency: curr, shortfall: amount - have });
        }
        self.currencies.set(curr, have - amount);
        Ok(())
    }

    /// Deposits `amount` of `curr`.
    pub fn grant_currency(&mut self, curr: Currency, amount: i64)
        requires
            0 <= amount,
            old(self).currencies.spec_get(curr) + amount <= i64::MAX,
        ensures
            *final(self) == after_grant(*old(self), curr, amount),
            old(self).wf() ==> final(self).wf(),
    {
        proof {
            self.currencies.lemma_set_get(curr, (self.currencies.spec_get(curr) + amount) as i64);
        }
        let have = self.currencies.get(curr);
        self.currencies.set(curr, have + amount);
    }
}

/// The ledger after withdrawing `amount` of `c`: unchanged when the balance
/// falls short.
pub open spec fn after_take(p: Player, c: Currency, amount: i64) -> Player {
    if p.currencies.spec_get(c) >= amount {
        Player {
            currencies: p.currencies.spec_set(c, (p.currencies.spec_get(c) - amount) as i64),
            ..p
        }
    } else {
        p
    }
}

/// The ledger after depositing `amount` of `c`.
pub open spec fn after_grant(p: Player, c: Currency, amount: i64) -> Player {
    Player { currencies: p.currencies.spec_set(c, (p.currencies.spec_get(c) + amount) as i64), ..p }
}

/// A withdrawal or a deposit, one step in a ledger's history.
#[derive(Debug, Clone, Copy, PartialEq, Eq, Structural)]
pub enum LedgerOp {
    Take(Currency, i64),
    Grant(Currency, i64),
}

/// The ledger after `ops` in order, or `None` when one of them is outside
/// what `take_currency` and `grant_currency` accept (a negative amount, a
/// deposit past the largest balance).
pub open spec fn replay(p: Player, ops: Seq<LedgerOp>) -> Option<Player>
    decreases ops.len(),
{
    if ops.len() == 0 {
        Some(p)
    } else {
        match ops[0] {
            LedgerOp::Take(c, n) => if n < 0 {
                None
            } else {
                replay(after_take(p, c, n), ops.drop_first())
            },
            LedgerOp::Grant(c, n) => if n < 0 || p.currencies.spec_get(c) + n > i64::MAX {
                None
            } else {
                replay(after_grant(p, c, n), ops.drop_first())
            },
        }
    }
}

/// Whatever withdrawals and deposits a ledger goes through, no balance ever
/// becomes negative.
pub proof fn lemma_balances_stay_non_negative(p: Player, ops: Seq<LedgerOp>)
    requires
        p.wf(),
        replay(p, ops) is Some,
    ensures
        replay(p, ops)->Some_0.wf(),
    decreases ops.len(),
{
    if ops.len() > 0 {
        match ops[0] {
            LedgerOp::Take(c, n) => {
                p.currencies.lemma_set_get(c, (p.currencies.spec_get(c) - n) as i64);
                lemma_balances_stay_non_negative(after_take(p, c, n), ops.drop_first());
            },
            LedgerOp::Grant(c, n) => {
                p.currencies.lemma_set_get(c, (p.currencies.spec_get(c) + n) as i64);
                lemma_balances_stay_non_negative(after_grant(p, c, n), ops.drop_first());
            },
        }
    }
}

/// An owned item of a user.
#[derive(Debug, Default, Clone, Copy, PartialEq, Eq, Structural)]
pub struct PlayerItem {
    pub id: Option<UserId>,
    pub item_id: i64,
}

/// Experience needed to leave `level`.
pub fn xp_for_level_up(level: i64) -> (r: i64)
    requires
        i64::MIN <= level * 1000 <= i64::MAX,
    ensures
        r == level * 1000,
{
    level * 1000
}

/// Events that the change from `before` to `after` gives rise to: one
/// `LevelUp` whenever the level rose, however many levels it rose by.
pub open spec fn level_events(before: Player, after: Player) -> Seq<PlayerEvent> {
    if after.level > before.level {
        seq![PlayerEvent::LevelUp]
    } else {
        Seq::empty()
    }
}

/// A level that stays put gives no event; a level that rises, by one or by
/// many, gives exactly one `LevelUp`.
pub proof fn lemma_level_up_coalesced(before: Player, after: Player)
    ensures
        after.level <= before.level ==> level_events(before, after).len() == 0,
        after.level > before.level ==> level_events(before, after) == seq![PlayerEvent::LevelUp],
{
}

/// What a mutation of one ledger has to report: the state before it ran and
/// the events found so far.
pub struct ActionContext {
    snapshot: Player,
    events: Vec<PlayerEvent>,
}

impl ActionContext {
    /// Runs `f` on `player` and reports the events that its change gives rise
    /// to. On error `player` is left as it was.
    pub fn do_with<F: FnOnce(Player) -> Result<Player, GameError>>(player: &mut Player, f: F) -> (r:
        Result<Vec<PlayerEvent>, GameError>)
        requires
            f.requires((*old(player),)),
        ensures
            match r {
                Ok(events) => f.ensures((*old(player),), Ok(*final(player))) && events@
                    == level_events(*old(player), *final(player)),
                Err(e) => f.ensures((*old(player),), Err(e)) && *final(player) == *old(player),
            },
    {
        let mut ctx = ActionContext { snapshot: *player, events: Vec::new() };
        match f(*player) {
            Ok(after) => {
                *player = after;
                ctx.update(player);
                Ok(ctx.events)
            },
            Err(e) => Err(e),
        }
    }

    fn update(&mut self, observed_player: &Player)
        ensures
            final(self).events@ == old(self).events@ + level_events(
                old(self).snapshot,
                *observed_player,
            ),
            final(self).snapshot == if observed_player.level > old(self).snapshot.level {
                *observed_player
            } else {
                old(self).snapshot
            },
    {
        if observed_player.level > self.snapshot.level {
            self.events.push(PlayerEvent::LevelUp);
            self.snapshot = *observed_player;
        }
        proof {
            assert(self.events@ =~= old(self).events@ + level_events(
                old(self).snapshot,
                *observed_player,
            ));
        }
    }
}

} // verus!
