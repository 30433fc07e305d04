//! The package registry: packages are created within bounds and disabled for
//! good.
use vstd::prelude::*;
use crate::engine::{Module, State};
use crate::error::Error;
use crate::loan::Event;
use crate::package::{LoanPackage, LoanPackageStatus};
use crate::primitives::{AccountId, Balance, LoanPackageId, INTEREST_RATE_PREC};
use crate::system::{ensure_root, Origin};

verus! {

impl State {
    /// Why an administrative call that also heeds the pause flag is turned
    /// down before it starts: the pause first, then the origin.
    pub open spec fn admin_gate(self, origin: Origin) -> Option<Error> {
        if self.params.paused {
            Some(Error::Paused)
        } else if origin !is Root {
            Some(Error::RequireRootOrigin)
        } else {
            None
        }
    }

    /// The caller of a user call, or why the call is turned down before it
    /// starts: the pause first, then the origin.
    pub open spec fn user_gate(self, origin: Origin) -> Result<AccountId, Error> {
        if self.params.paused {
            Err(Error::Paused)
        } else {
            origin.signed_check()
        }
    }

    /// The package that a call with these terms creates.
    pub open spec fn new_package(self, terms: u32, interest_rate_hourly: u32, min: Balance) -> LoanPackage {
        LoanPackage {
            id: self.next_loan_package_id,
            status: LoanPackageStatus::Active,
            terms,
            min,
            interest_rate_hourly,
            collateral_asset_id: self.params.collateral_asset_id,
            loan_asset_id: self.params.loan_asset_id,
        }
    }

    /// Creating a package: the terms, the rate and the minimum must be
    /// positive and the rate below the precision, else `InvalidParameter`; the
    /// package gets the next id and the asset pair of the moment.
    pub open spec fn create_package_outcome(
        self,
        terms: u32,
        interest_rate_hourly: u32,
        min: Balance,
    ) -> Result<(State, Event), Error> {
        if terms == 0 || interest_rate_hourly == 0 || min == 0 || interest_rate_hourly
            >= INTEREST_RATE_PREC {
            Err(Error::InvalidParameter)
        } else if self.next_loan_package_id == u64::MAX {
            Err(Error::Overflow)
        } else {
            Ok(
                (
                    State {
                        packages: self.packages.push(
                            self.new_package(terms, interest_rate_hourly, min),
                        ),
                        next_loan_package_id: (self.next_loan_package_id + 1) as LoanPackageId,
                        ..self
                    },
                    Event::PackageCreated(self.next_loan_package_id),
                ),
            )
        }
    }

    /// Disabling a package: an unknown id is `PackageNotFound`; else the
    /// package is inactive from now on, and nothing else changes.
    pub open spec fn disable_package_outcome(self, package_id: LoanPackageId) -> Result<
        (State, Event),
        Error,
    > {
        if !self.has_package(package_id) {
            Err(Error::PackageNotFound)
        } else {
            Ok(
                (
                    State {
                        packages: self.packages.update(
                            self.package_index(package_id),
                            LoanPackage {
                                status: LoanPackageStatus::Inactive,
                                ..self.package(package_id)
                            },
                        ),
                        ..self
                    },
                    Event::PackageDisabled(package_id),
                ),
            )
        }
    }
}

/// Adding a package, or changing the status of one, keeps the invariant.
pub proof fn lemma_packages_changed(s: State, t: State)
    requires
        s.wf(),
        t == (State { packages: t.packages, next_loan_package_id: t.next_loan_package_id, ..s }),
        t.packages.len() >= s.packages.len(),
        forall|i: int| 0 <= i < s.packages.len() ==> (#[trigger] t.packages[i]).id == s.packages[i].id,
        forall|i: int|
            0 <= i < t.packages.len() ==> (#[trigger] t.packages[i]).id < t.next_loan_package_id
                && t.packages[i].valid(),
        forall|i: int, j: int|
            0 <= i < j < t.packages.len() ==> t.packages[i].id != t.packages[j].id,
    ensures
        t.wf(),
{
    assert forall|i: int| 0 <= i < t.loans.len() implies t.has_package(
        (#[trigger] t.loans[i]).package_id,
    ) by {
        assert(s.has_package(s.loans[i].package_id));
        let w = choose|w: int|
            0 <= w < s.packages.len() && #[trigger] s.packages[w].id == s.loans[i].package_id;
        assert(t.packages[w].id == s.loans[i].package_id);
    }
    assert forall|k: int| 0 <= k < t.liquidating.len() implies t.has_loan(
        #[trigger] t.liquidating[k],
    ) by {
        assert(s.has_loan(s.liquidating[k]));
    }
}

impl Module {
    /// Creates a package within the bounds of the registry.
    pub fn create_loan_package(&mut self, terms: u32, interest_rate_hourly: u32, min_tbd: Balance) -> (r:
        Result<Event, Error>)
        requires
            old(self)@.wf(),
        ensures
            final(self)@.wf(),
            match old(self)@.create_package_outcome(terms, interest_rate_hourly, min_tbd) {
                Ok((s, ev)) => r == Ok::<Event, Error>(ev) && final(self)@ == s,
                Err(e) => r == Err::<Event, Error>(e) && final(self)@ == old(self)@,
            },
            old(self)@.collateral_reconciled() ==> final(self)@.collateral_reconciled(),
    {
        if terms == 0 || interest_rate_hourly == 0 || min_tbd == 0 || interest_rate_hourly
            >= INTEREST_RATE_PREC {
            return Err(Error::InvalidParameter);
        }
        if self.next_loan_package_id == u64::MAX {
            return Err(Error::Overflow);
        }
        let package_id = self.next_loan_package_id;
        let package = LoanPackage {
            id: package_id,
            status: LoanPackageStatus::Active,
            terms,
            min: min_tbd,
            interest_rate_hourly,
            collateral_asset_id: self.params.collateral_asset_id,
            loan_asset_id: self.params.loan_asset_id,
        };
        self.loan_packages.push(package);
        self.next_loan_package_id = package_id + 1;
        proof {
            lemma_packages_changed(old(self)@, self@);
        }
        Ok(Event::PackageCreated(package_id))
    }

    /// Disables a package: no more loans can be made from it, and this cannot
    /// be reversed.
    pub fn disable_loan_package(&mut self, package_id: LoanPackageId) -> (r: Result<Event, Error>)
        requires
            old(self)@.wf(),
        ensures
            final(self)@.wf(),
            match old(self)@.disable_package_outcome(package_id) {
                Ok((s, ev)) => r == Ok::<Event, Error>(ev) && final(self)@ == s,
                Err(e) => r == Err::<Event, Error>(e) && final(self)@ == old(self)@,
            },
            old(self)@.collateral_reconciled() ==> final(self)@.collateral_reconciled(),
    {
        match self.find_package(package_id) {
            None => Err(Error::PackageNotFound),
            Some(i) => {
                let mut package = self.loan_packages[i];
                package.status = LoanPackageStatus::Inactive;
                self.loan_packages.set(i, package);
                proof {
                    lemma_packages_changed(old(self)@, self@);
                }
                Ok(Event::PackageDisabled(package_id))
            },
        }
    }

    /// The administrator creates a package.
    pub fn create_package(
        &mut self,
        origin: Origin,
        terms: u32,
        interest_rate_hourly: u32,
        min_tbd: Balance,
    ) -> (r: Result<Event, Error>)
        requires
            old(self)@.wf(),
        ensures
            final(self)@.wf(),
            match old(self)@.admin_gate(origin) {
                Some(e) => r == Err::<Event, Error>(e) && final(self)@ == old(self)@,
                None => match old(self)@.create_package_outcome(
                    terms,
                    interest_rate_hourly,
                    min_tbd,
                ) {
                    Ok((s, ev)) => r == Ok::<Event, Error>(ev) && final(self)@ == s,
                    Err(e) => r == Err::<Event, Error>(e) && final(self)@ == old(self)@,
                },
            },
            old(self)@.collateral_reconciled() ==> final(self)@.collateral_reconciled(),
    {
        if self.params.paused {
            return Err(Error::Paused);
        }
        ensure_root(origin)?;
        self.create_loan_package(terms, interest_rate_hourly, min_tbd)
    }

    /// The administrator disables a package.
    pub fn disable_package(&mut self, origin: Origin, package_id: LoanPackageId) -> (r: Result<
        Event,
        Error,
    >)
        requires
            old(self)@.wf(),
        ensures
            final(self)@.wf(),
            match old(self)@.admin_gate(origin) {
                Some(e) => r == Err::<Event, Error>(e) && final(self)@ == old(self)@,
                None => match old(self)@.disable_package_outcome(package_id) {
                    Ok((s, ev)) => r == Ok::<Event, Error>(ev) && final(self)@ == s,
                    Err(e) => r == Err::<Event, Error>(e) && final(self)@ == old(self)@,
                },
            },
            old(self)@.collateral_reconciled() ==> final(self)@.collateral_reconciled(),
    {
        if self.params.paused {
            return Err(Error::Paused);
        }
        ensure_root(origin)?;
        self.disable_loan_package(package_id)
    }
}

} // verus!
