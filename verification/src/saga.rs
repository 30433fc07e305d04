//! Ledger steps that are undone when a later step fails.
//!
//! An operation of the loan engine touches the asset ledger in several steps.
//! [`run_saga`] performs them in order; when one is refused it undoes the steps
//! already made, last first, and the ledger is as it was.
use vstd::prelude::*;
use crate::assets::{
    burned, can_burn, can_mint, can_transfer, minted, transfer_error, transferred, Balances,
    LedgerView, Module,
};
use crate::error::Error;
use crate::primitives::{AccountId, AssetId, Balance};

verus! {

/// One step on the asset ledger.
#[derive(Clone, Copy, Debug, PartialEq, Eq, Structural)]
pub enum LedgerAction {
    /// Move an amount from one account to another.
    Transfer { asset_id: AssetId, from: AccountId, to: AccountId, amount: Balance },
    /// Create an amount in an account.
    Mint { asset_id: AssetId, to: AccountId, amount: Balance },
    /// Destroy an amount held by an account.
    Burn { asset_id: AssetId, from: AccountId, amount: Balance },
}

/// Every pair of asset and account has a balance.
pub open spec fn total(b: Balances) -> bool {
    forall|k: (AssetId, AccountId)| b.contains_key(k)
}

impl LedgerAction {
    /// Whether the ledger takes the step on balances `b`.
    pub open spec fn allowed(self, b: Balances) -> bool {
        match self {
            LedgerAction::Transfer { asset_id, from, to, amount } => can_transfer(
                b,
                asset_id,
                from,
                to,
                amount,
            ),
            LedgerAction::Mint { asset_id, to, amount } => can_mint(b, asset_id, to, amount),
            LedgerAction::Burn { asset_id, from, amount } => can_burn(b, asset_id, from, amount),
        }
    }

    /// The balances after the step.
    pub open spec fn effect(self, b: Balances) -> Balances {
        match self {
            LedgerAction::Transfer { asset_id, from, to, amount } => transferred(
                b,
                asset_id,
                from,
                to,
                amount,
            ),
            LedgerAction::Mint { asset_id, to, amount } => minted(b, asset_id, to, amount),
            LedgerAction::Burn { asset_id, from, amount } => burned(b, asset_id, from, amount),
        }
    }

    /// The error with which the ledger refuses the step on balances `b`.
    pub open spec fn refusal(self, b: Balances) -> Error {
        match self {
            LedgerAction::Transfer { asset_id, from, to, amount } => transfer_error(
                b,
                asset_id,
                from,
                amount,
            ),
            LedgerAction::Mint { .. } => Error::Overflow,
            LedgerAction::Burn { .. } => Error::InsufficientBalance,
        }
    }

    /// The step that undoes this one: the transfer back, a burn for a mint, a
    /// mint for a burn.
    pub open spec fn inverse(self) -> LedgerAction {
        match self {
            LedgerAction::Transfer { asset_id, from, to, amount } => LedgerAction::Transfer {
                asset_id,
                from: to,
                to: from,
                amount,
            },
            LedgerAction::Mint { asset_id, to, amount } => LedgerAction::Burn {
                asset_id,
                from: to,
                amount,
            },
            LedgerAction::Burn { asset_id, from, amount } => LedgerAction::Mint {
                asset_id,
                to: from,
                amount,
            },
        }
    }

    /// The step that undoes this one.
    pub fn compensation(&self) -> (undo: LedgerAction)
        ensures
            undo == self.inverse(),
    {
        match *self {
            LedgerAction::Transfer { asset_id, from, to, amount } => LedgerAction::Transfer {
                asset_id,
                from: to,
                to: from,
                amount,
            },
            LedgerAction::Mint { asset_id, to, amount } => LedgerAction::Burn {
                asset_id,
                from: to,
                amount,
            },
            LedgerAction::Burn { asset_id, from, amount } => LedgerAction::Mint {
                asset_id,
                to: from,
                amount,
            },
        }
    }

    /// Makes the step on the ledger, or changes nothing.
    pub fn perform(&self, ledger: &mut Module) -> (r: Result<(), Error>)
        ensures
            match r {
                Ok(()) => self.allowed(old(ledger)@.balances) && final(ledger)@ == (LedgerView {
                    balances: self.effect(old(ledger)@.balances),
                    ..old(ledger)@
                }),
                Err(e) => !self.allowed(old(ledger)@.balances) && e == self.refusal(
                    old(ledger)@.balances,
                ) && final(ledger)@ == old(ledger)@,
            },
    {
        match self {
            LedgerAction::Transfer { asset_id, from, to, amount } => ledger.make_transfer(
                asset_id,
                from,
                to,
                *amount,
            ),
            LedgerAction::Mint { asset_id, to, amount } => ledger.mint_free(asset_id, to, *amount),
            LedgerAction::Burn { asset_id, from, amount } => ledger.burn_free(
                asset_id,
                from,
                *amount,
            ),
        }
    }
}

/// A step that was taken can be undone, and undoing it restores every balance.
pub proof fn lemma_inverse_restores(a: LedgerAction, b: Balances)
    requires
        total(b),
        a.allowed(b),
    ensures
        total(a.effect(b)),
        a.inverse().allowed(a.effect(b)),
        a.inverse().effect(a.effect(b)) == b,
{
    assert(a.inverse().effect(a.effect(b)) =~= b);
}

/// The balances after the first `n` steps, each taken on what the one before left.
pub open spec fn state_after(b: Balances, steps: Seq<LedgerAction>, n: nat) -> Balances
    decreases n,
{
    if n == 0 {
        b
    } else {
        steps[n - 1].effect(state_after(b, steps, (n - 1) as nat))
    }
}

/// The refusal of the first step among the first `n` that the ledger does not
/// take, if there is one.
pub open spec fn failure_within(b: Balances, steps: Seq<LedgerAction>, n: nat) -> Option<Error>
    decreases n,
{
    if n == 0 {
        None
    } else {
        match failure_within(b, steps, (n - 1) as nat) {
            Some(e) => Some(e),
            None => {
                let before = state_after(b, steps, (n - 1) as nat);
                if steps[n - 1].allowed(before) {
                    None
                } else {
                    Some(steps[n - 1].refusal(before))
                }
            },
        }
    }
}

/// The error with which the whole sequence fails, if it does.
pub open spec fn saga_error(b: Balances, steps: Seq<LedgerAction>) -> Option<Error> {
    failure_within(b, steps, steps.len())
}

/// The balances after the whole sequence.
pub open spec fn saga_result(b: Balances, steps: Seq<LedgerAction>) -> Balances {
    state_after(b, steps, steps.len())
}

/// Once a step has been refused, no longer prefix does better.
pub proof fn lemma_failure_sticks(b: Balances, steps: Seq<LedgerAction>, n: nat, m: nat)
    requires
        n <= m,
        failure_within(b, steps, n) is Some,
    ensures
        failure_within(b, steps, m) == failure_within(b, steps, n),
    decreases m,
{
    if n < m {
        lemma_failure_sticks(b, steps, n, (m - 1) as nat);
    }
}

/// A sequence fails as a whole with the refusal of its first refused step: if
/// the first `k` steps go through and the ledger refuses the next, that
/// refusal is the error of the sequence, whatever follows.
pub proof fn law_saga_fails_as_a_whole(b: Balances, steps: Seq<LedgerAction>, k: nat)
    requires
        k < steps.len(),
        failure_within(b, steps, k) is None,
        !steps[k as int].allowed(state_after(b, steps, k)),
    ensures
        saga_error(b, steps) == Some(steps[k as int].refusal(state_after(b, steps, k))),
{
    assert(failure_within(b, steps, k + 1) == Some(
        steps[k as int].refusal(state_after(b, steps, k)),
    ));
    lemma_failure_sticks(b, steps, k + 1, steps.len());
}

/// Balances stay total along a sequence of steps.
pub proof fn lemma_state_after_total(b: Balances, steps: Seq<LedgerAction>, n: nat)
    requires
        total(b),
    ensures
        total(state_after(b, steps, n)),
    decreases n,
{
    if n > 0 {
        lemma_state_after_total(b, steps, (n - 1) as nat);
    }
}

/// A sequence of one step, written out.
pub proof fn lemma_saga_one(b: Balances, s0: LedgerAction)
    ensures
        saga_result(b, seq![s0]) == s0.effect(b),
        saga_error(b, seq![s0]) == (if s0.allowed(b) {
            None
        } else {
            Some(s0.refusal(b))
        }),
{
    reveal_with_fuel(state_after, 2);
    reveal_with_fuel(failure_within, 2);
}

/// A sequence of two steps, written out.
pub proof fn lemma_saga_two(b: Balances, s0: LedgerAction, s1: LedgerAction)
    ensures
        saga_result(b, seq![s0, s1]) == s1.effect(s0.effect(b)),
        saga_error(b, seq![s0, s1]) == (if !s0.allowed(b) {
            Some(s0.refusal(b))
        } else if !s1.allowed(s0.effect(b)) {
            Some(s1.refusal(s0.effect(b)))
        } else {
            None
        }),
{
    reveal_with_fuel(state_after, 3);
    reveal_with_fuel(failure_within, 3);
}

/// A sequence of three steps, written out.
pub proof fn lemma_saga_three(b: Balances, s0: LedgerAction, s1: LedgerAction, s2: LedgerAction)
    ensures
        saga_result(b, seq![s0, s1, s2]) == s2.effect(s1.effect(s0.effect(b))),
        saga_error(b, seq![s0, s1, s2]) == (if !s0.allowed(b) {
            Some(s0.refusal(b))
        } else if !s1.allowed(s0.effect(b)) {
            Some(s1.refusal(s0.effect(b)))
        } else if !s2.allowed(s1.effect(s0.effect(b))) {
            Some(s2.refusal(s1.effect(s0.effect(b))))
        } else {
            None
        }),
{
    reveal_with_fuel(state_after, 4);
    reveal_with_fuel(failure_within, 4);
}

/// Takes the steps in order. If the ledger refuses one, the steps before it are
/// undone in reverse order and its error is returned: the ledger is then
/// exactly as it was before the call.
pub fn run_saga(ledger: &mut Module, steps: &Vec<LedgerAction>) -> (r: Result<(), Error>)
    ensures
        match r {
            Ok(()) => saga_error(old(ledger)@.balances, steps@) is None && final(ledger)@ == (
            LedgerView {
                balances: saga_result(old(ledger)@.balances, steps@),
                ..old(ledger)@
            }),
            Err(e) => saga_error(old(ledger)@.balances, steps@) == Some(e) && final(ledger)@
                == old(ledger)@,
        },
{
    let ghost start = ledger@;
    assert(total(start.balances));
    let n = steps.len();
    let mut i: usize = 0;
    while i < n
        invariant
            n == steps.len(),
            i <= n,
            start == old(ledger)@,
            total(start.balances),
            failure_within(start.balances, steps@, i as nat) is None,
            ledger@ == (LedgerView {
                balances: state_after(start.balances, steps@, i as nat),
                ..start
            }),
        decreases n - i,
    {
        match steps[i].perform(ledger) {
            Ok(()) => {
                i = i + 1;
            },
            Err(e) => {
                proof {
                    assert(failure_within(start.balances, steps@, (i + 1) as nat) == Some(e));
                    lemma_failure_sticks(start.balances, steps@, (i + 1) as nat, n as nat);
                }
                let mut j: usize = i;
                while j > 0
                    invariant
                        n == steps.len(),
                        j <= i < n,
                        start == old(ledger)@,
                        total(start.balances),
                        saga_error(start.balances, steps@) == Some(e),
                        failure_within(start.balances, steps@, j as nat) is None,
                        ledger@ == (LedgerView {
                            balances: state_after(start.balances, steps@, j as nat),
                            ..start
                        }),
                    decreases j,
                {
                    proof {
                        lemma_state_after_total(start.balances, steps@, (j - 1) as nat);
                        lemma_inverse_restores(
                            steps@[j - 1],
                            state_after(start.balances, steps@, (j - 1) as nat),
                        );
                    }
                    let undo = steps[j - 1].compensation();
                    let undone = undo.perform(ledger);
                    assert(undone is Ok);
                    j = j - 1;
                }
                return Err(e);
            },
        }
    }
    Ok(())
}

} // verus!
