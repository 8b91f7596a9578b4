//! Properties that hold of every request, stated over the same spec
//! functions that the contracts of `classify` and `verify` use.

use crate::account::{
    account_kind, actual_balance, classifiable, is_native_program, AccountHandle, AccountKind,
};
use crate::engine::{
    all_classifiable, has_shortfall, is_first_shortfall, passes, shortfall_at,
};
use vstd::prelude::*;

verus! {

/// The sequence with the elements at `i` and `j` exchanged.
pub open spec fn swapped<A>(s: Seq<A>, i: int, j: int) -> Seq<A> {
    s.update(i, s[j]).update(j, s[i])
}

/// A pair whose account holds at least its minimum never causes a violation;
/// a pair whose account holds less always does, whatever the minimum, zero
/// included.
pub proof fn lemma_threshold_exact(accounts: Seq<AccountHandle>, balances: Seq<u64>, i: int)
    requires
        accounts.len() == balances.len(),
        0 <= i < accounts.len(),
    ensures
        actual_balance(accounts[i]) >= balances[i] ==> {
            &&& !shortfall_at(accounts, balances, i)
            &&& !is_first_shortfall(accounts, balances, i)
        },
        actual_balance(accounts[i]) < balances[i] ==> {
            &&& shortfall_at(accounts, balances, i)
            &&& has_shortfall(accounts, balances)
            &&& !passes(accounts, balances)
        },
{
    if actual_balance(accounts[i]) < balances[i] {
        assert(shortfall_at(accounts, balances, i));
    }
}

/// One short account fails the whole request, however many others pass.
pub proof fn lemma_any_violation_fails(accounts: Seq<AccountHandle>, balances: Seq<u64>, i: int)
    requires
        accounts.len() == balances.len(),
        0 <= i < accounts.len(),
        shortfall_at(accounts, balances, i),
    ensures
        has_shortfall(accounts, balances),
        !passes(accounts, balances),
{
}

/// The kind of an account depends on its bytes and its owner alone.
pub proof fn lemma_classification_determined(a: AccountHandle, b: AccountHandle)
    requires
        a.data@ == b.data@,
        a.owner@ == b.owner@,
    ensures
        account_kind(a) == account_kind(b),
{
}

/// An account that the native-balance program owns is always classified,
/// whether or not its bytes decode as a token account.
pub proof fn lemma_native_owner_classifiable(a: AccountHandle)
    requires
        is_native_program(a.owner@),
    ensures
        classifiable(a),
        account_kind(a) != AccountKind::Unrecognized,
{
}

/// Exchanging two (account, minimum) pairs leaves the pass or fail outcome
/// of the request as it was.
pub proof fn lemma_swap_keeps_outcome(
    accounts: Seq<AccountHandle>,
    balances: Seq<u64>,
    i: int,
    j: int,
)
    requires
        accounts.len() == balances.len(),
        0 <= i < accounts.len(),
        0 <= j < accounts.len(),
    ensures
        passes(accounts, balances) == passes(swapped(accounts, i, j), swapped(balances, i, j)),
{
    let n = accounts.len();
    let a2 = swapped(accounts, i, j);
    let b2 = swapped(balances, i, j);
    let perm = |k: int|
        if k == i {
            j
        } else if k == j {
            i
        } else {
            k
        };
    if all_classifiable(accounts) {
        assert forall|k: int| 0 <= k < n implies classifiable(#[trigger] a2[k]) by {
            assert(classifiable(accounts[perm(k)]));
        }
    }
    if all_classifiable(a2) {
        assert forall|k: int| 0 <= k < n implies classifiable(#[trigger] accounts[k]) by {
            assert(classifiable(a2[perm(k)]));
        }
    }
    if has_shortfall(accounts, balances) {
        let w = choose|w: int| 0 <= w < n && #[trigger] shortfall_at(accounts, balances, w);
        assert(shortfall_at(a2, b2, perm(w)));
    }
    if has_shortfall(a2, b2) {
        let w = choose|w: int| 0 <= w < n && #[trigger] shortfall_at(a2, b2, w);
        assert(shortfall_at(accounts, balances, perm(w)));
    }
}

} // verus!
