//! The state of the loan engine, its invariant, and how it is read.
use vstd::prelude::*;
use crate::loan::Loan;
use crate::package::{LoanPackage, LoanPackageStatus};
use crate::primitives::{AccountId, AssetId, Balance, LoanId, LoanPackageId, Price, LTV};
use crate::sums::sum;

verus! {

/// The parameters that the administrator sets.
#[derive(Clone, Copy, Debug, PartialEq, Eq)]
pub struct Params {
    /// The account that holds all locked collateral.
    pub pawn_shop: AccountId,
    /// The account that collects interest and penalties.
    pub profit_pool: AccountId,
    /// The asset that new packages take as collateral.
    pub collateral_asset_id: AssetId,
    /// The asset that new packages lend.
    pub loan_asset_id: AssetId,
    /// The highest ratio at which a loan is made or drawn from.
    pub global_ltv_limit: LTV,
    /// The ratio from which a loan is liquidated.
    pub global_liquidation_threshold: LTV,
    /// The ratio from which a warning is raised.
    pub global_warning_threshold: LTV,
    /// The price of the collateral asset.
    pub current_btc_price: Price,
    /// The part of the collateral cut when a loan expires, scaled by `LTV_PREC`.
    pub penalty_rate: u32,
    /// The account that settles liquidations.
    pub liquidation_account: AccountId,
    /// The most that may be lent in all, if there is a cap.
    pub loan_cap: Option<Balance>,
    /// The module-wide gate.
    pub paused: bool,
    /// The least collateral of a loan.
    pub minimum_collateral: Balance,
    /// The part of the auction surplus kept as penalty, scaled by `LTV_PREC`.
    pub liquidation_penalty: u32,
}

/// The values that a new engine starts with.
#[derive(Clone, Copy, Debug, PartialEq, Eq)]
pub struct GenesisConfig {
    pub current_btc_price: Price,
    pub collateral_asset_id: AssetId,
    pub loan_asset_id: AssetId,
    pub global_ltv_limit: LTV,
    pub global_liquidation_threshold: LTV,
    pub global_warning_threshold: LTV,
    pub next_loan_id: LoanId,
    pub next_loan_package_id: LoanPackageId,
    pub pawn_shop: AccountId,
    pub profit_pool: AccountId,
    pub penalty_rate: u32,
    pub liquidation_account: AccountId,
    pub minimum_collateral: Balance,
    pub liquidation_penalty: u32,
}

/// The loan engine as a mathematical value.
pub struct State {
    pub params: Params,
    /// The id that the next package gets.
    pub next_loan_package_id: LoanPackageId,
    /// Every package ever created, oldest first.
    pub packages: Seq<LoanPackage>,
    /// The id that the next loan gets.
    pub next_loan_id: LoanId,
    /// The open loans, oldest first. A loan under liquidation stays open
    /// until it is settled.
    pub loans: Seq<Loan>,
    /// The loans that wait for the settlement of their liquidation.
    pub liquidating: Seq<LoanId>,
    /// The sum of the balances of the open loans.
    pub total_loan: Balance,
    /// The collateral locked in the pawn shop for the open loans.
    pub total_collateral: Balance,
    /// All interest and penalties ever sent to the profit pool.
    pub total_profit: Balance,
}

/// The loan engine.
#[derive(Clone, Debug, PartialEq, Eq)]
pub struct Module {
    pub params: Params,
    /// The id that the next package gets.
    pub next_loan_package_id: LoanPackageId,
    /// Every package ever created, oldest first.
    pub loan_packages: Vec<LoanPackage>,
    /// The id that the next loan gets.
    pub next_loan_id: LoanId,
    /// The open loans, oldest first.
    pub loans: Vec<Loan>,
    /// The loans that wait for the settlement of their liquidation.
    pub liquidating_loans: Vec<LoanId>,
    /// The sum of the balances of the open loans.
    pub total_loan: Balance,
    /// The collateral locked in the pawn shop for the open loans.
    pub total_collateral: Balance,
    /// All interest and penalties ever sent to the profit pool.
    pub total_profit: Balance,
}

impl View for Module {
    type V = State;

    open spec fn view(&self) -> State {
        State {
            params: self.params,
            next_loan_package_id: self.next_loan_package_id,
            packages: self.loan_packages@,
            next_loan_id: self.next_loan_id,
            loans: self.loans@,
            liquidating: self.liquidating_loans@,
            total_loan: self.total_loan,
            total_collateral: self.total_collateral,
            total_profit: self.total_profit,
        }
    }
}

/// The balances of `loans`, in order.
pub open spec fn loan_balances(loans: Seq<Loan>) -> Seq<int> {
    Seq::new(loans.len(), |i: int| loans[i].loan_balance_total as int)
}

/// The available collateral of `loans`, in order.
pub open spec fn collaterals(loans: Seq<Loan>) -> Seq<int> {
    Seq::new(loans.len(), |i: int| loans[i].collateral_balance_available as int)
}

/// The ids of the first `n` of `loans` that `who` owns, in order.
pub open spec fn owned_ids(loans: Seq<Loan>, who: AccountId, n: nat) -> Seq<LoanId>
    decreases n,
{
    if n == 0 {
        Seq::empty()
    } else {
        let before = owned_ids(loans, who, (n - 1) as nat);
        if loans[n - 1].who == who {
            before.push(loans[n - 1].id)
        } else {
            before
        }
    }
}

/// Whether one of `packages` has this id.
pub open spec fn holds_package(packages: Seq<LoanPackage>, id: LoanPackageId) -> bool {
    exists|i: int| 0 <= i < packages.len() && #[trigger] packages[i].id == id
}

/// Whether `i` is the place of the first of `packages` with this id.
pub open spec fn is_first_package(packages: Seq<LoanPackage>, id: LoanPackageId, i: int) -> bool {
    &&& 0 <= i < packages.len()
    &&& packages[i].id == id
    &&& forall|j: int| 0 <= j < i ==> #[trigger] packages[j].id != id
}

/// The place of the first of `packages` with this id.
pub open spec fn place_of_package(packages: Seq<LoanPackage>, id: LoanPackageId) -> int {
    choose|i: int| is_first_package(packages, id, i)
}

/// The first of `packages` with this id, or the void package.
pub open spec fn package_in(packages: Seq<LoanPackage>, id: LoanPackageId) -> LoanPackage {
    if holds_package(packages, id) {
        packages[place_of_package(packages, id)]
    } else {
        LoanPackage::void()
    }
}

/// Whether one of `loans` has this id.
pub open spec fn holds_loan(loans: Seq<Loan>, id: LoanId) -> bool {
    exists|i: int| 0 <= i < loans.len() && #[trigger] loans[i].id == id
}

/// Whether `i` is the place of the first of `loans` with this id.
pub open spec fn is_first_loan(loans: Seq<Loan>, id: LoanId, i: int) -> bool {
    &&& 0 <= i < loans.len()
    &&& loans[i].id == id
    &&& forall|j: int| 0 <= j < i ==> #[trigger] loans[j].id != id
}

/// The place of the first of `loans` with this id.
pub open spec fn place_of_loan(loans: Seq<Loan>, id: LoanId) -> int {
    choose|i: int| is_first_loan(loans, id, i)
}

/// The first of `loans` with this id, or the void loan.
pub open spec fn loan_in(loans: Seq<Loan>, id: LoanId) -> Loan {
    if holds_loan(loans, id) {
        loans[place_of_loan(loans, id)]
    } else {
        Loan::void()
    }
}

impl State {
    /// The state that an engine starts in.
    pub open spec fn genesis(config: GenesisConfig) -> State {
        State {
            params: Params {
                pawn_shop: config.pawn_shop,
                profit_pool: config.profit_pool,
                collateral_asset_id: config.collateral_asset_id,
                loan_asset_id: config.loan_asset_id,
                global_ltv_limit: config.global_ltv_limit,
                global_liquidation_threshold: config.global_liquidation_threshold,
                global_warning_threshold: config.global_warning_threshold,
                current_btc_price: config.current_btc_price,
                penalty_rate: config.penalty_rate,
                liquidation_account: config.liquidation_account,
                loan_cap: None,
                paused: false,
                minimum_collateral: config.minimum_collateral,
                liquidation_penalty: config.liquidation_penalty,
            },
            next_loan_package_id: config.next_loan_package_id,
            packages: Seq::empty(),
            next_loan_id: config.next_loan_id,
            loans: Seq::empty(),
            liquidating: Seq::empty(),
            total_loan: 0,
            total_collateral: 0,
            total_profit: 0,
        }
    }

    /// Whether a package has this id.
    pub open spec fn has_package(self, id: LoanPackageId) -> bool {
        holds_package(self.packages, id)
    }

    /// Whether `i` is the place of the first package with this id.
    pub open spec fn is_package_index(self, id: LoanPackageId, i: int) -> bool {
        is_first_package(self.packages, id, i)
    }

    /// The place of the package with this id.
    pub open spec fn package_index(self, id: LoanPackageId) -> int {
        place_of_package(self.packages, id)
    }

    /// The package with this id, or the void package.
    pub open spec fn package(self, id: LoanPackageId) -> LoanPackage {
        package_in(self.packages, id)
    }

    /// The package with this id if it is open for new loans, else the void package.
    pub open spec fn active_package(self, id: LoanPackageId) -> LoanPackage {
        if self.has_package(id) && self.package(id).status is Active {
            self.package(id)
        } else {
            LoanPackage::void()
        }
    }

    /// Whether an open loan has this id.
    pub open spec fn has_loan(self, id: LoanId) -> bool {
        holds_loan(self.loans, id)
    }

    /// Whether `i` is the place of the first open loan with this id.
    pub open spec fn is_loan_index(self, id: LoanId, i: int) -> bool {
        is_first_loan(self.loans, id, i)
    }

    /// The place of the open loan with this id.
    pub open spec fn loan_index(self, id: LoanId) -> int {
        place_of_loan(self.loans, id)
    }

    /// The open loan with this id, or the void loan.
    pub open spec fn loan(self, id: LoanId) -> Loan {
        loan_in(self.loans, id)
    }

    /// Whether the loan waits for the settlement of its liquidation.
    pub open spec fn is_liquidating(self, id: LoanId) -> bool {
        self.liquidating.contains(id)
    }

    /// The invariant of the engine: ids are not used twice and lie below the
    /// next id; packages are within their bounds; every loan names a package
    /// and has no more collateral available than was locked; the liquidating
    /// set names open loans, each once; and the total loan is the sum of the
    /// balances of the open loans.
    pub open spec fn wf(self) -> bool {
        &&& forall|i: int, j: int|
            0 <= i < j < self.packages.len() ==> self.packages[i].id != self.packages[j].id
        &&& forall|i: int|
            0 <= i < self.packages.len() ==> (#[trigger] self.packages[i]).id
                < self.next_loan_package_id && self.packages[i].valid()
        &&& forall|i: int, j: int|
            0 <= i < j < self.loans.len() ==> self.loans[i].id != self.loans[j].id
        &&& forall|i: int|
            0 <= i < self.loans.len() ==> {
                &&& (#[trigger] self.loans[i]).id < self.next_loan_id
                &&& self.has_package(self.loans[i].package_id)
                &&& self.loans[i].collateral_balance_available
                    <= self.loans[i].collateral_balance_original
            }
        &&& self.liquidating.no_duplicates()
        &&& forall|k: int|
            0 <= k < self.liquidating.len() ==> self.has_loan(#[trigger] self.liquidating[k])
        &&& self.total_loan == sum(loan_balances(self.loans))
    }

    /// The total collateral is the sum of the available collateral of the
    /// open loans.
    pub open spec fn collateral_reconciled(self) -> bool {
        self.total_collateral == sum(collaterals(self.loans))
    }
}

/// The place found by a search from the front is the place the state names.
pub proof fn lemma_loan_index(s: State, id: LoanId, i: int)
    requires
        s.is_loan_index(id, i),
    ensures
        s.has_loan(id),
        s.loan_index(id) == i,
        s.loan(id) == s.loans[i],
{
    let c = s.loan_index(id);
    assert(s.is_loan_index(id, c));
    if c < i {
        assert(s.loans[c].id != id);
    }
    if i < c {
        assert(s.loans[i].id != id);
    }
}

/// The place found by a search from the front is the place the state names.
pub proof fn lemma_package_index(s: State, id: LoanPackageId, i: int)
    requires
        s.is_package_index(id, i),
    ensures
        s.has_package(id),
        s.package_index(id) == i,
        s.package(id) == s.packages[i],
{
    let c = s.package_index(id);
    assert(s.is_package_index(id, c));
    if c < i {
        assert(s.packages[c].id != id);
    }
    if i < c {
        assert(s.packages[i].id != id);
    }
}

impl Module {
    /// A new engine: no package, no loan, not paused, no loan cap.
    pub fn new(config: GenesisConfig) -> (m: Module)
        ensures
            m@ == State::genesis(config),
            m@.wf(),
            m@.collateral_reconciled(),
    {
        let m = Module {
            params: Params {
                pawn_shop: config.pawn_shop,
                profit_pool: config.profit_pool,
                collateral_asset_id: config.collateral_asset_id,
                loan_asset_id: config.loan_asset_id,
                global_ltv_limit: config.global_ltv_limit,
                global_liquidation_threshold: config.global_liquidation_threshold,
                global_warning_threshold: config.global_warning_threshold,
                current_btc_price: config.current_btc_price,
                penalty_rate: config.penalty_rate,
                liquidation_account: config.liquidation_account,
                loan_cap: None,
                paused: false,
                minimum_collateral: config.minimum_collateral,
                liquidation_penalty: config.liquidation_penalty,
            },
            next_loan_package_id: config.next_loan_package_id,
            loan_packages: Vec::new(),
            next_loan_id: config.next_loan_id,
            loans: Vec::new(),
            liquidating_loans: Vec::new(),
            total_loan: 0,
            total_collateral: 0,
            total_profit: 0,
        };
        assert(loan_balances(m@.loans) =~= Seq::<int>::empty());
        assert(collaterals(m@.loans) =~= Seq::<int>::empty());
        m
    }

    /// The place of the first package with this id.
    pub fn find_package(&self, package_id: LoanPackageId) -> (r: Option<usize>)
        ensures
            match r {
                Some(i) => self@.is_package_index(package_id, i as int) && self@.has_package(
                    package_id,
                ) && self@.package_index(package_id) == i,
                None => !self@.has_package(package_id),
            },
    {
        let mut i: usize = 0;
        while i < self.loan_packages.len()
            invariant
                i <= self.loan_packages.len(),
                forall|j: int| 0 <= j < i ==> (#[trigger] self.loan_packages@[j]).id != package_id,
            decreases self.loan_packages.len() - i,
        {
            if self.loan_packages[i].id == package_id {
                proof {
                    lemma_package_index(self@, package_id, i as int);
                }
                return Some(i);
            }
            i = i + 1;
        }
        None
    }

    /// The place of the first open loan with this id.
    pub fn find_loan(&self, loan_id: LoanId) -> (r: Option<usize>)
        ensures
            match r {
                Some(i) => self@.is_loan_index(loan_id, i as int) && self@.has_loan(loan_id)
                    && self@.loan_index(loan_id) == i,
                None => !self@.has_loan(loan_id),
            },
    {
        let mut i: usize = 0;
        while i < self.loans.len()
            invariant
                i <= self.loans.len(),
                forall|j: int| 0 <= j < i ==> (#[trigger] self.loans@[j]).id != loan_id,
            decreases self.loans.len() - i,
        {
            if self.loans[i].id == loan_id {
                proof {
                    lemma_loan_index(self@, loan_id, i as int);
                }
                return Some(i);
            }
            i = i + 1;
        }
        None
    }

    /// Whether the loan waits for the settlement of its liquidation.
    pub fn check_loan_in_liquidation(&self, loan_id: &LoanId) -> (b: bool)
        ensures
            b == self@.is_liquidating(*loan_id),
    {
        let mut i: usize = 0;
        while i < self.liquidating_loans.len()
            invariant
                i <= self.liquidating_loans.len(),
                forall|j: int| 0 <= j < i ==> self.liquidating_loans@[j] != *loan_id,
            decreases self.liquidating_loans.len() - i,
        {
            if self.liquidating_loans[i] == *loan_id {
                return true;
            }
            i = i + 1;
        }
        false
    }

    /// Whether the module-wide gate is set.
    pub fn paused(&self) -> (b: bool)
        ensures
            b == self@.params.paused,
    {
        self.params.paused
    }

    /// The account that holds all locked collateral.
    pub fn pawn_shop(&self) -> (a: AccountId)
        ensures
            a == self@.params.pawn_shop,
    {
        self.params.pawn_shop
    }

    /// The account that collects interest and penalties.
    pub fn profit_pool(&self) -> (a: AccountId)
        ensures
            a == self@.params.profit_pool,
    {
        self.params.profit_pool
    }

    /// The asset that new packages take as collateral.
    pub fn collateral_asset_id(&self) -> (a: AssetId)
        ensures
            a == self@.params.collateral_asset_id,
    {
        self.params.collateral_asset_id
    }

    /// The asset that new packages lend.
    pub fn loan_asset_id(&self) -> (a: AssetId)
        ensures
            a == self@.params.loan_asset_id,
    {
        self.params.loan_asset_id
    }

    /// The highest ratio at which a loan is made or drawn from.
    pub fn global_ltv_limit(&self) -> (l: LTV)
        ensures
            l == self@.params.global_ltv_limit,
    {
        self.params.global_ltv_limit
    }

    /// The ratio from which a loan is liquidated.
    pub fn global_liquidation_threshold(&self) -> (l: LTV)
        ensures
            l == self@.params.global_liquidation_threshold,
    {
        self.params.global_liquidation_threshold
    }

    /// The ratio from which a warning is raised.
    pub fn global_warning_threshold(&self) -> (l: LTV)
        ensures
            l == self@.params.global_warning_threshold,
    {
        self.params.global_warning_threshold
    }

    /// The price of the collateral asset.
    pub fn current_btc_price(&self) -> (p: Price)
        ensures
            p == self@.params.current_btc_price,
    {
        self.params.current_btc_price
    }

    /// The part of the collateral cut when a loan expires.
    pub fn penalty_rate(&self) -> (r: u32)
        ensures
            r == self@.params.penalty_rate,
    {
        self.params.penalty_rate
    }

    /// The account that settles liquidations.
    pub fn liquidation_account(&self) -> (a: AccountId)
        ensures
            a == self@.params.liquidation_account,
    {
        self.params.liquidation_account
    }

    /// The most that may be lent in all, if there is a cap.
    pub fn loan_cap(&self) -> (c: Option<Balance>)
        ensures
            c == self@.params.loan_cap,
    {
        self.params.loan_cap
    }

    /// The least collateral of a loan.
    pub fn minimum_collateral(&self) -> (b: Balance)
        ensures
            b == self@.params.minimum_collateral,
    {
        self.params.minimum_collateral
    }

    /// The part of the auction surplus kept as penalty.
    pub fn liquidation_penalty(&self) -> (r: u32)
        ensures
            r == self@.params.liquidation_penalty,
    {
        self.params.liquidation_penalty
    }

    /// The id that the next package gets.
    pub fn next_loan_package_id(&self) -> (id: LoanPackageId)
        ensures
            id == self@.next_loan_package_id,
    {
        self.next_loan_package_id
    }

    /// The id that the next loan gets.
    pub fn next_loan_id(&self) -> (id: LoanId)
        ensures
            id == self@.next_loan_id,
    {
        self.next_loan_id
    }

    /// The sum of the balances of the open loans.
    pub fn total_loan(&self) -> (b: Balance)
        ensures
            b == self@.total_loan,
    {
        self.total_loan
    }

    /// The collateral locked in the pawn shop for the open loans.
    pub fn total_collateral(&self) -> (b: Balance)
        ensures
            b == self@.total_collateral,
    {
        self.total_collateral
    }

    /// All interest and penalties ever sent to the profit pool.
    pub fn total_profit(&self) -> (b: Balance)
        ensures
            b == self@.total_profit,
    {
        self.total_profit
    }

    /// The package with this id, or the void package.
    pub fn loan_package(&self, package_id: LoanPackageId) -> (p: LoanPackage)
        ensures
            p == self@.package(package_id),
    {
        match self.find_package(package_id) {
            Some(i) => self.loan_packages[i],
            None => LoanPackage::default(),
        }
    }

    /// The package with this id if it is open for new loans, else the void package.
    pub fn active_loan_packages(&self, package_id: LoanPackageId) -> (p: LoanPackage)
        ensures
            p == self@.active_package(package_id),
    {
        match self.find_package(package_id) {
            Some(i) => match self.loan_packages[i].status {
                LoanPackageStatus::Active => self.loan_packages[i],
                LoanPackageStatus::Inactive => LoanPackage::default(),
            },
            None => LoanPackage::default(),
        }
    }

    /// The open loan with this id, or the void loan.
    pub fn get_loan_by_id(&self, loan_id: &LoanId) -> (l: Loan)
        ensures
            l == self@.loan(*loan_id),
    {
        match self.find_loan(*loan_id) {
            Some(i) => self.loans[i],
            None => Loan::default(),
        }
    }

    /// The ids of the open loans of `who`, oldest first.
    pub fn loans_by_account(&self, who: &AccountId) -> (ids: Vec<LoanId>)
        ensures
            ids@ == owned_ids(self@.loans, *who, self@.loans.len()),
    {
        let mut ids: Vec<LoanId> = Vec::new();
        let mut i: usize = 0;
        while i < self.loans.len()
            invariant
                i <= self.loans.len(),
                ids@ == owned_ids(self@.loans, *who, i as nat),
            decreases self.loans.len() - i,
        {
            if self.loans[i].who == *who {
                ids.push(self.loans[i].id);
            }
            i = i + 1;
        }
        ids
    }

    /// The loans that wait for the settlement of their liquidation.
    pub fn liquidating_loans(&self) -> (ids: Vec<LoanId>)
        ensures
            ids@ == self@.liquidating,
    {
        let mut ids: Vec<LoanId> = Vec::new();
        let mut i: usize = 0;
        while i < self.liquidating_loans.len()
            invariant
                i <= self.liquidating_loans.len(),
                ids@ == self@.liquidating.subrange(0, i as int),
            decreases self.liquidating_loans.len() - i,
        {
            ids.push(self.liquidating_loans[i]);
            assert(self@.liquidating.subrange(0, i + 1) =~= self@.liquidating.subrange(
                0,
                i as int,
            ).push(self@.liquidating[i as int]));
            i = i + 1;
        }
        assert(self@.liquidating.subrange(0, i as int) =~= self@.liquidating);
        ids
    }
}

} // verus!
