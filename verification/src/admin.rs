//! The administrative entry points. Each one takes the root origin and no
//! other; none of them touches a loan, a package or a counter.
use vstd::prelude::*;
use crate::engine::{Module, Params, State};
use crate::error::Error;
use crate::primitives::{AccountId, AssetId, Balance, Price, LTV};
use crate::system::{ensure_root, Origin};

verus! {

impl Module {
    /// Sets the module-wide gate.
    pub fn pause(&mut self, origin: Origin) -> (r: Result<(), Error>)
        ensures
            r == origin.root_check(),
            final(self)@ == (if r is Ok {
                State { params: Params { paused: true, ..old(self)@.params }, ..old(self)@ }
            } else {
                old(self)@
            }),
            old(self)@.wf() ==> final(self)@.wf(),
    {
        ensure_root(origin)?;
        self.params.paused = true;
        Ok(())
    }

    /// Lifts the module-wide gate.
    pub fn resume(&mut self, origin: Origin) -> (r: Result<(), Error>)
        ensures
            r == origin.root_check(),
            final(self)@ == (if r is Ok {
                State { params: Params { paused: false, ..old(self)@.params }, ..old(self)@ }
            } else {
                old(self)@
            }),
            old(self)@.wf() ==> final(self)@.wf(),
    {
        ensure_root(origin)?;
        self.params.paused = false;
        Ok(())
    }

    /// Sets the asset that new packages take as collateral.
    pub fn set_collateral_asset_id(&mut self, origin: Origin, asset_id: AssetId) -> (r: Result<(), Error>)
        ensures
            r == origin.root_check(),
            final(self)@ == (if r is Ok {
                State { params: Params { collateral_asset_id: asset_id, ..old(self)@.params }, ..old(self)@ }
            } else {
                old(self)@
            }),
            old(self)@.wf() ==> final(self)@.wf(),
    {
        ensure_root(origin)?;
        self.params.collateral_asset_id = asset_id;
        Ok(())
    }

    /// Sets the asset that new packages lend.
    pub fn set_loan_asset_id(&mut self, origin: Origin, asset_id: AssetId) -> (r: Result<(), Error>)
        ensures
            r == origin.root_check(),
            final(self)@ == (if r is Ok {
                State { params: Params { loan_asset_id: asset_id, ..old(self)@.params }, ..old(self)@ }
            } else {
                old(self)@
            }),
            old(self)@.wf() ==> final(self)@.wf(),
    {
        ensure_root(origin)?;
        self.params.loan_asset_id = asset_id;
        Ok(())
    }

    /// Sets the highest ratio at which a loan is made or drawn from.
    pub fn set_global_ltv_limit(&mut self, origin: Origin, limit: LTV) -> (r: Result<(), Error>)
        ensures
            r == origin.root_check(),
            final(self)@ == (if r is Ok {
                State { params: Params { global_ltv_limit: limit, ..old(self)@.params }, ..old(self)@ }
            } else {
                old(self)@
            }),
            old(self)@.wf() ==> final(self)@.wf(),
    {
        ensure_root(origin)?;
        self.params.global_ltv_limit = limit;
        Ok(())
    }

    /// Sets the ratio from which a loan is liquidated.
    pub fn set_global_liquidation_threshold(&mut self, origin: Origin, threshold: LTV) -> (r: Result<(), Error>)
        ensures
            r == origin.root_check(),
            final(self)@ == (if r is Ok {
                State { params: Params { global_liquidation_threshold: threshold, ..old(self)@.params }, ..old(self)@ }
            } else {
                old(self)@
            }),
            old(self)@.wf() ==> final(self)@.wf(),
    {
        ensure_root(origin)?;
        self.params.global_liquidation_threshold = threshold;
        Ok(())
    }

    /// Sets the ratio from which a warning is raised.
    pub fn set_global_warning_threshold(&mut self, origin: Origin, threshold: LTV) -> (r: Result<(), Error>)
        ensures
            r == origin.root_check(),
            final(self)@ == (if r is Ok {
                State { params: Params { global_warning_threshold: threshold, ..old(self)@.params }, ..old(self)@ }
            } else {
                old(self)@
            }),
            old(self)@.wf() ==> final(self)@.wf(),
    {
        ensure_root(origin)?;
        self.params.global_warning_threshold = threshold;
        Ok(())
    }

    /// Names the account that settles liquidations.
    pub fn set_liquidation_account(&mut self, origin: Origin, account_id: AccountId) -> (r: Result<(), Error>)
        ensures
            r == origin.root_check(),
            final(self)@ == (if r is Ok {
                State { params: Params { liquidation_account: account_id, ..old(self)@.params }, ..old(self)@ }
            } else {
                old(self)@
            }),
            old(self)@.wf() ==> final(self)@.wf(),
    {
        ensure_root(origin)?;
        self.params.liquidation_account = account_id;
        Ok(())
    }

    /// Sets the part of the collateral cut when a loan expires.
    pub fn set_penalty_rate(&mut self, origin: Origin, rate: u32) -> (r: Result<(), Error>)
        ensures
            r == origin.root_check(),
            final(self)@ == (if r is Ok {
                State { params: Params { penalty_rate: rate, ..old(self)@.params }, ..old(self)@ }
            } else {
                old(self)@
            }),
            old(self)@.wf() ==> final(self)@.wf(),
    {
        ensure_root(origin)?;
        self.params.penalty_rate = rate;
        Ok(())
    }

    /// Overrides the price of the collateral asset.
    pub fn set_price(&mut self, origin: Origin, price: Price) -> (r: Result<(), Error>)
        ensures
            r == origin.root_check(),
            final(self)@ == (if r is Ok {
                State { params: Params { current_btc_price: price, ..old(self)@.params }, ..old(self)@ }
            } else {
                old(self)@
            }),
            old(self)@.wf() ==> final(self)@.wf(),
    {
        ensure_root(origin)?;
        self.params.current_btc_price = price;
        Ok(())
    }

    /// Sets the most that may be lent in all; zero lifts the cap.
    pub fn set_loan_cap(&mut self, origin: Origin, balance: Balance) -> (r: Result<(), Error>)
        ensures
            r == origin.root_check(),
            final(self)@ == (if r is Ok {
                State {
                    params: Params {
                        loan_cap: if balance == 0 {
                            None
                        } else {
                            Some(balance)
                        },
                        ..old(self)@.params
                    },
                    ..old(self)@
                }
            } else {
                old(self)@
            }),
            old(self)@.wf() ==> final(self)@.wf(),
    {
        ensure_root(origin)?;
        if balance == 0 {
            self.params.loan_cap = None;
        } else {
            self.params.loan_cap = Some(balance);
        }
        Ok(())
    }

    /// Takes a new price from the oracle.
    pub fn on_change(&mut self, p: Price)
        ensures
            final(self)@ == (State {
                params: Params { current_btc_price: p, ..old(self)@.params },
                ..old(self)@
            }),
            old(self)@.wf() ==> final(self)@.wf(),
    {
        self.params.current_btc_price = p;
    }
}

} // verus!
