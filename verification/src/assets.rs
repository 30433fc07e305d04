//! The asset ledger: free balances per asset and account, and a registry of
//! asset symbols.
//!
//! A balance that was never written is zero. Transfers, mints and burns work on
//! any asset id; the registry only records which ids carry a symbol.
use std::collections::HashMap;
use vstd::prelude::*;
use vstd::std_specs::hash::*;
use crate::error::Error;
use crate::primitives::{AccountId, AssetId, Balance};
use crate::system::{ensure_root, ensure_signed, Origin};

verus! {

broadcast use vstd::std_specs::hash::group_hash_axioms;

/// All free balances: a total map, zero where nothing is held.
pub type Balances = Map<(AssetId, AccountId), Balance>;

/// What the ledger reports when it has changed.
#[derive(Clone, Copy, Debug, PartialEq, Eq, Structural)]
pub enum Event {
    /// An asset was created with an initial issuance for its owner.
    Created(AssetId, AccountId, Balance),
    /// An amount moved from the first account to the second.
    Transferred(AssetId, AccountId, AccountId, Balance),
    /// An amount was minted to an account.
    Minted(AssetId, AccountId, Balance),
    /// An amount was burned from an account.
    Burned(AssetId, AccountId, Balance),
}

/// The slot of `(asset_id, who)` in the balance table.
pub open spec fn account_key(asset_id: AssetId, who: AccountId) -> u128 {
    (asset_id as int * 0x1_0000_0000_0000_0000 + who as int) as u128
}

/// `from` holds the amount, and `to` has room for it.
pub open spec fn can_transfer(
    b: Balances,
    asset_id: AssetId,
    from: AccountId,
    to: AccountId,
    amount: Balance,
) -> bool {
    b[(asset_id, from)] >= amount && (from == to || b[(asset_id, to)] + amount <= u128::MAX)
}

/// The balances after `amount` has moved from `from` to `to`.
pub open spec fn transferred(
    b: Balances,
    asset_id: AssetId,
    from: AccountId,
    to: AccountId,
    amount: Balance,
) -> Balances {
    if from == to {
        b
    } else {
        b.insert((asset_id, from), (b[(asset_id, from)] - amount) as Balance).insert(
            (asset_id, to),
            (b[(asset_id, to)] + amount) as Balance,
        )
    }
}

/// Why a transfer is turned down: a short balance first, then a full receiver.
pub open spec fn transfer_error(
    b: Balances,
    asset_id: AssetId,
    from: AccountId,
    amount: Balance,
) -> Error {
    if b[(asset_id, from)] < amount {
        Error::InsufficientBalance
    } else {
        Error::Overflow
    }
}

/// `to` has room for the amount.
pub open spec fn can_mint(b: Balances, asset_id: AssetId, to: AccountId, amount: Balance) -> bool {
    b[(asset_id, to)] + amount <= u128::MAX
}

/// The balances after `amount` was minted to `to`.
pub open spec fn minted(b: Balances, asset_id: AssetId, to: AccountId, amount: Balance) -> Balances {
    b.insert((asset_id, to), (b[(asset_id, to)] + amount) as Balance)
}

/// `from` holds the amount.
pub open spec fn can_burn(b: Balances, asset_id: AssetId, from: AccountId, amount: Balance) -> bool {
    b[(asset_id, from)] >= amount
}

/// The balances after `amount` was burned from `from`.
pub open spec fn burned(b: Balances, asset_id: AssetId, from: AccountId, amount: Balance) -> Balances {
    b.insert((asset_id, from), (b[(asset_id, from)] - amount) as Balance)
}

/// The ledger as a mathematical value.
pub struct LedgerView {
    /// The account behind the root origin.
    pub root_key: AccountId,
    /// The id that the next created asset gets.
    pub next_asset_id: AssetId,
    /// The symbol of each registered asset.
    pub symbols: Map<AssetId, Seq<u8>>,
    /// Every free balance.
    pub balances: Balances,
}

/// The asset ledger.
#[derive(Clone, Debug)]
pub struct Module {
    /// The account behind the root origin.
    pub root_key: AccountId,
    /// The id that the next created asset gets.
    pub next_asset_id: AssetId,
    /// The symbol of each registered asset.
    pub symbols: HashMap<AssetId, Vec<u8>>,
    /// The balances that were written, by [`account_key`].
    pub balances: HashMap<u128, Balance>,
}

impl View for Module {
    type V = LedgerView;

    open spec fn view(&self) -> LedgerView {
        LedgerView {
            root_key: self.root_key,
            next_asset_id: self.next_asset_id,
            symbols: Map::new(
                |id: AssetId| self.symbols@.contains_key(id),
                |id: AssetId| self.symbols@[id]@,
            ),
            balances: Map::new(
                |k: (AssetId, AccountId)| true,
                |k: (AssetId, AccountId)| self.balance_of(k.0, k.1),
            ),
        }
    }
}

/// Two accounts share a slot only if they are the same account of the same asset.
pub proof fn lemma_account_key_injective(a1: AssetId, w1: AccountId, a2: AssetId, w2: AccountId)
    ensures
        account_key(a1, w1) == account_key(a2, w2) <==> (a1 == a2 && w1 == w2),
{
}

impl Module {
    /// What `who` holds of `asset_id`.
    pub open spec fn balance_of(&self, asset_id: AssetId, who: AccountId) -> Balance {
        if self.balances@.contains_key(account_key(asset_id, who)) {
            self.balances@[account_key(asset_id, who)]
        } else {
            0
        }
    }

    /// A ledger with no asset and no balance.
    pub fn new(root_key: AccountId, next_asset_id: AssetId) -> (m: Module)
        ensures
            m@.root_key == root_key,
            m@.next_asset_id == next_asset_id,
            m@.symbols == Map::<AssetId, Seq<u8>>::empty(),
            forall|a: AssetId, w: AccountId| m@.balances[(a, w)] == 0,
    {
        let m = Module {
            root_key,
            next_asset_id,
            symbols: HashMap::new(),
            balances: HashMap::new(),
        };
        assert(m@.symbols =~= Map::<AssetId, Seq<u8>>::empty());
        m
    }

    /// Records the symbol of an asset, in place of an earlier one if there was one.
    pub fn register(&mut self, asset_id: AssetId, symbol: Vec<u8>)
        ensures
            final(self)@ == (LedgerView {
                symbols: old(self)@.symbols.insert(asset_id, symbol@),
                ..old(self)@
            }),
    {
        self.symbols.insert(asset_id, symbol);
        assert(self@.symbols =~= old(self)@.symbols.insert(asset_id, symbol@));
        assert(self@.balances =~= old(self)@.balances);
    }

    /// The account of a signed origin, if it is the root account.
    pub fn ensure_signed_root(&self, origin: Origin) -> (r: Result<AccountId, Error>)
        ensures
            r == (match origin {
                Origin::Signed(who) => if who == self@.root_key {
                    Ok::<AccountId, Error>(who)
                } else {
                    Err(Error::RequireRootOrigin)
                },
                _ => Err(Error::RequireSignedOrigin),
            }),
    {
        let who = ensure_signed(origin)?;
        if who != self.root_key {
            return Err(Error::RequireRootOrigin);
        }
        Ok(who)
    }

    /// The id that the next created asset gets.
    pub fn get_current_asset_id(&self) -> (id: AssetId)
        ensures
            id == self@.next_asset_id,
    {
        self.next_asset_id
    }

    /// Whether the asset carries a symbol.
    pub fn asset_exists(&self, asset_id: &AssetId) -> (b: bool)
        ensures
            b == self@.symbols.contains_key(*asset_id),
    {
        self.symbols.contains_key(asset_id)
    }

    /// What `who` holds of `asset_id`.
    pub fn free_balance(&self, asset_id: &AssetId, who: &AccountId) -> (b: Balance)
        ensures
            b == self@.balances[(*asset_id, *who)],
    {
        let key: u128 = (*asset_id as u128) * 0x1_0000_0000_0000_0000u128 + (*who as u128);
        match self.balances.get(&key) {
            Some(v) => *v,
            None => 0,
        }
    }

    /// Writes one balance and leaves every other one as it was.
    fn set_balance(&mut self, asset_id: AssetId, who: AccountId, value: Balance)
        ensures
            final(self)@ == (LedgerView {
                balances: old(self)@.balances.insert((asset_id, who), value),
                ..old(self)@
            }),
    {
        let key: u128 = (asset_id as u128) * 0x1_0000_0000_0000_0000u128 + (who as u128);
        self.balances.insert(key, value);
        assert forall|k: (AssetId, AccountId)|
            self.balance_of(k.0, k.1) == #[trigger] old(self)@.balances.insert(
                (asset_id, who),
                value,
            )[k] by {
            lemma_account_key_injective(k.0, k.1, asset_id, who);
        }
        assert(self@.balances =~= old(self)@.balances.insert((asset_id, who), value));
        assert(self@.symbols =~= old(self)@.symbols);
    }

    /// Moves `amount` of `asset_id` from `from` to `to`, or changes nothing.
    pub fn make_transfer(
        &mut self,
        asset_id: &AssetId,
        from: &AccountId,
        to: &AccountId,
        amount: Balance,
    ) -> (r: Result<(), Error>)
        ensures
            match r {
                Ok(()) => can_transfer(old(self)@.balances, *asset_id, *from, *to, amount)
                    && final(self)@ == (LedgerView {
                    balances: transferred(old(self)@.balances, *asset_id, *from, *to, amount),
                    ..old(self)@
                }),
                Err(e) => !can_transfer(old(self)@.balances, *asset_id, *from, *to, amount)
                    && e == transfer_error(old(self)@.balances, *asset_id, *from, amount)
                    && final(self)@ == old(self)@,
            },
    {
        let held = self.free_balance(asset_id, from);
        if held < amount {
            return Err(Error::InsufficientBalance);
        }
        if *from == *to {
            return Ok(());
        }
        let there = self.free_balance(asset_id, to);
        match there.checked_add(amount) {
            None => Err(Error::Overflow),
            Some(sum) => {
                self.set_balance(*asset_id, *from, held - amount);
                self.set_balance(*asset_id, *to, sum);
                Ok(())
            },
        }
    }

    /// Moves `amount` as [`Module::make_transfer`] does and reports the move.
    pub fn make_transfer_with_event(
        &mut self,
        asset_id: &AssetId,
        from: &AccountId,
        to: &AccountId,
        amount: Balance,
    ) -> (r: Result<Event, Error>)
        ensures
            match r {
                Ok(ev) => can_transfer(old(self)@.balances, *asset_id, *from, *to, amount)
                    && ev == Event::Transferred(*asset_id, *from, *to, amount)
                    && final(self)@ == (LedgerView {
                    balances: transferred(old(self)@.balances, *asset_id, *from, *to, amount),
                    ..old(self)@
                }),
                Err(e) => !can_transfer(old(self)@.balances, *asset_id, *from, *to, amount)
                    && e == transfer_error(old(self)@.balances, *asset_id, *from, amount)
                    && final(self)@ == old(self)@,
            },
    {
        match self.make_transfer(asset_id, from, to, amount) {
            Ok(()) => Ok(Event::Transferred(*asset_id, *from, *to, amount)),
            Err(e) => Err(e),
        }
    }

    /// Adds `amount` of `asset_id` to what `to` holds, or changes nothing.
    pub fn mint_free(&mut self, asset_id: &AssetId, to: &AccountId, amount: Balance) -> (r: Result<
        (),
        Error,
    >)
        ensures
            match r {
                Ok(()) => can_mint(old(self)@.balances, *asset_id, *to, amount) && final(self)@ == (
                LedgerView {
                    balances: minted(old(self)@.balances, *asset_id, *to, amount),
                    ..old(self)@
                }),
                Err(e) => !can_mint(old(self)@.balances, *asset_id, *to, amount) && e
                    == Error::Overflow && final(self)@ == old(self)@,
            },
    {
        let there = self.free_balance(asset_id, to);
        match there.checked_add(amount) {
            None => Err(Error::Overflow),
            Some(sum) => {
                self.set_balance(*asset_id, *to, sum);
                Ok(())
            },
        }
    }

    /// Takes `amount` of `asset_id` out of what `from` holds, or changes nothing.
    pub fn burn_free(&mut self, asset_id: &AssetId, from: &AccountId, amount: Balance) -> (r:
        Result<(), Error>)
        ensures
            match r {
                Ok(()) => can_burn(old(self)@.balances, *asset_id, *from, amount) && final(self)@
                    == (LedgerView {
                    balances: burned(old(self)@.balances, *asset_id, *from, amount),
                    ..old(self)@
                }),
                Err(e) => !can_burn(old(self)@.balances, *asset_id, *from, amount) && e
                    == Error::InsufficientBalance && final(self)@ == old(self)@,
            },
    {
        let held = self.free_balance(asset_id, from);
        if held < amount {
            return Err(Error::InsufficientBalance);
        }
        self.set_balance(*asset_id, *from, held - amount);
        Ok(())
    }
    /// The administrator creates an asset: it gets the next id, the symbol is
    /// recorded, and the root account holds the initial balance of it.
    pub fn create(&mut self, origin: Origin, initial_balance: Balance, symbol: Vec<u8>) -> (r:
        Result<Event, Error>)
        ensures
            match r {
                Ok(ev) => origin is Root && old(self)@.next_asset_id < u32::MAX && ev
                    == Event::Created(
                    old(self)@.next_asset_id,
                    old(self)@.root_key,
                    initial_balance,
                ) && final(self)@ == (LedgerView {
                    next_asset_id: (old(self)@.next_asset_id + 1) as AssetId,
                    symbols: old(self)@.symbols.insert(old(self)@.next_asset_id, symbol@),
                    balances: old(self)@.balances.insert(
                        (old(self)@.next_asset_id, old(self)@.root_key),
                        initial_balance,
                    ),
                    ..old(self)@
                }),
                Err(e) => final(self)@ == old(self)@ && e == (if origin !is Root {
                    Error::RequireRootOrigin
                } else {
                    Error::Overflow
                }) && (origin !is Root || old(self)@.next_asset_id == u32::MAX),
            },
    {
        ensure_root(origin)?;
        if self.next_asset_id == 0xffff_ffff {
            return Err(Error::Overflow);
        }
        let asset_id = self.next_asset_id;
        let owner = self.root_key;
        self.register(asset_id, symbol);
        self.set_balance(asset_id, owner, initial_balance);
        self.next_asset_id = asset_id + 1;
        assert(self@.symbols =~= old(self)@.symbols.insert(asset_id, symbol@));
        assert(self@.balances =~= old(self)@.balances.insert((asset_id, owner), initial_balance));
        Ok(Event::Created(asset_id, owner, initial_balance))
    }

    /// A signed caller moves `amount` of `asset_id` to `to`.
    pub fn transfer(&mut self, origin: Origin, asset_id: AssetId, to: AccountId, amount: Balance) -> (r:
        Result<Event, Error>)
        ensures
            match origin.signed_check() {
                Err(e) => r == Err::<Event, Error>(e) && final(self)@ == old(self)@,
                Ok(who) => if can_transfer(old(self)@.balances, asset_id, who, to, amount) {
                    r == Ok::<Event, Error>(Event::Transferred(asset_id, who, to, amount))
                        && final(self)@ == (LedgerView {
                        balances: transferred(old(self)@.balances, asset_id, who, to, amount),
                        ..old(self)@
                    })
                } else {
                    r == Err::<Event, Error>(
                        transfer_error(old(self)@.balances, asset_id, who, amount),
                    ) && final(self)@ == old(self)@
                },
            },
    {
        let who = ensure_signed(origin)?;
        self.make_transfer_with_event(&asset_id, &who, &to, amount)
    }

    /// The administrator mints `amount` of `asset_id` to `to`.
    pub fn mint(&mut self, origin: Origin, asset_id: AssetId, to: AccountId, amount: Balance) -> (r:
        Result<Event, Error>)
        ensures
            match origin.root_check() {
                Err(e) => r == Err::<Event, Error>(e) && final(self)@ == old(self)@,
                Ok(()) => if can_mint(old(self)@.balances, asset_id, to, amount) {
                    r == Ok::<Event, Error>(Event::Minted(asset_id, to, amount)) && final(self)@
                        == (LedgerView {
                        balances: minted(old(self)@.balances, asset_id, to, amount),
                        ..old(self)@
                    })
                } else {
                    r == Err::<Event, Error>(Error::Overflow) && final(self)@ == old(self)@
                },
            },
    {
        ensure_root(origin)?;
        self.mint_free(&asset_id, &to, amount)?;
        Ok(Event::Minted(asset_id, to, amount))
    }

    /// The administrator burns `amount` of `asset_id` held by `from`.
    pub fn burn(&mut self, origin: Origin, asset_id: AssetId, from: AccountId, amount: Balance) -> (r:
        Result<Event, Error>)
        ensures
            match origin.root_check() {
                Err(e) => r == Err::<Event, Error>(e) && final(self)@ == old(self)@,
                Ok(()) => if can_burn(old(self)@.balances, asset_id, from, amount) {
                    r == Ok::<Event, Error>(Event::Burned(asset_id, from, amount)) && final(self)@
                        == (LedgerView {
                        balances: burned(old(self)@.balances, asset_id, from, amount),
                        ..old(self)@
                    })
                } else {
                    r == Err::<Event, Error>(Error::InsufficientBalance) && final(self)@ == old(self)@
                },
            },
    {
        ensure_root(origin)?;
        self.burn_free(&asset_id, &from, amount)?;
        Ok(Event::Burned(asset_id, from, amount))
    }
}

} // verus!
