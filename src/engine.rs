//! The verification engine: pairs each account with its expected minimum
//! balance, position by position, and fails unless every account holds at
//! least its minimum.

use crate::account::{
    actual_balance, classifiable, classify, identity_of, AccountHandle, ClassifiedAccount,
};
use vstd::prelude::*;

verus! {

/// What the engine reports of one (account, expected minimum) pair.
#[derive(Clone, Debug)]
pub struct CheckRecord {
    pub index: usize,
    pub expected: u64,
    pub actual: u64,
    pub identity: String,
    pub passed: bool,
}

/// Why a verification failed. Each of them fails the whole enclosing bundle.
#[derive(Clone, Debug)]
pub enum ZipperError {
    /// The account list and the balance list differ in length.
    InvalidNumberOfAccountsOrBalances,
    /// The first account whose balance is below its expected minimum.
    InsufficientBalance { index: usize, expected: u64, actual: u64, identity: String },
    /// The first account that is neither a token account nor a native-balance holder.
    NonSOLOrSPLAccountProvided { index: usize },
}

/// The outcome of a verification, with the record of every check performed.
#[derive(Debug)]
pub struct VerificationReport {
    pub trace: Vec<CheckRecord>,
    pub outcome: Result<(), ZipperError>,
}

/// Every account of the request can be classified.
pub open spec fn all_classifiable(accounts: Seq<AccountHandle>) -> bool {
    forall|i: int| 0 <= i < accounts.len() ==> classifiable(#[trigger] accounts[i])
}

/// Position `i` holds the first account that cannot be classified.
pub open spec fn is_first_unclassifiable(accounts: Seq<AccountHandle>, i: int) -> bool {
    &&& 0 <= i < accounts.len()
    &&& !classifiable(accounts[i])
    &&& forall|j: int| 0 <= j < i ==> classifiable(#[trigger] accounts[j])
}

/// The account at position `i` holds less than the minimum at position `i`.
pub open spec fn shortfall_at(accounts: Seq<AccountHandle>, balances: Seq<u64>, i: int) -> bool {
    actual_balance(accounts[i]) < balances[i] as nat
}

/// Some account holds less than its minimum.
pub open spec fn has_shortfall(accounts: Seq<AccountHandle>, balances: Seq<u64>) -> bool {
    exists|i: int| 0 <= i < accounts.len() && #[trigger] shortfall_at(accounts, balances, i)
}

/// Position `i` holds the first account that falls short of its minimum.
pub open spec fn is_first_shortfall(accounts: Seq<AccountHandle>, balances: Seq<u64>, i: int) -> bool {
    &&& 0 <= i < accounts.len()
    &&& shortfall_at(accounts, balances, i)
    &&& forall|j: int| 0 <= j < i ==> !#[trigger] shortfall_at(accounts, balances, j)
}

/// The request is well formed and every account meets its minimum.
pub open spec fn passes(accounts: Seq<AccountHandle>, balances: Seq<u64>) -> bool {
    &&& accounts.len() == balances.len()
    &&& all_classifiable(accounts)
    &&& !has_shortfall(accounts, balances)
}

/// The record of the check at position `i`.
pub open spec fn record_matches(
    r: CheckRecord,
    accounts: Seq<AccountHandle>,
    balances: Seq<u64>,
    i: int,
) -> bool {
    &&& r.index == i
    &&& r.expected == balances[i]
    &&& r.actual as nat == actual_balance(accounts[i])
    &&& r.identity@ == identity_of(accounts[i])
    &&& r.passed == (r.actual >= r.expected)
}

/// The trace holds one record per pair, in order.
pub open spec fn trace_matches(
    trace: Seq<CheckRecord>,
    accounts: Seq<AccountHandle>,
    balances: Seq<u64>,
) -> bool {
    &&& trace.len() == accounts.len()
    &&& forall|i: int| 0 <= i < trace.len() ==> record_matches(#[trigger] trace[i], accounts, balances, i)
}

/// Checks that `accounts[i]` holds at least `balances[i]` for every `i`.
///
/// Lengths that differ fail before any account is looked at. Otherwise every
/// account is classified, and the first that cannot be fails the call before
/// any balance is compared. Otherwise every pair is compared and recorded in
/// the trace, and the call fails with the first pair whose balance is short.
pub fn verify(accounts: &[AccountHandle], balances: &[u64]) -> (r: VerificationReport)
    ensures
        accounts@.len() != balances@.len() ==> {
            &&& r.trace@.len() == 0
            &&& r.outcome == Err::<(), ZipperError>(ZipperError::InvalidNumberOfAccountsOrBalances)
        },
        accounts@.len() == balances@.len() && !all_classifiable(accounts@) ==> {
            &&& r.trace@.len() == 0
            &&& (r.outcome matches Err(ZipperError::NonSOLOrSPLAccountProvided { index })
                && is_first_unclassifiable(accounts@, index as int))
        },
        accounts@.len() == balances@.len() && all_classifiable(accounts@) ==> {
            &&& trace_matches(r.trace@, accounts@, balances@)
            &&& has_shortfall(accounts@, balances@) ==> (r.outcome matches Err(
                ZipperError::InsufficientBalance { index, expected, actual, identity },
            ) && {
                &&& is_first_shortfall(accounts@, balances@, index as int)
                &&& expected == balances@[index as int]
                &&& actual as nat == actual_balance(accounts@[index as int])
                &&& identity@ == identity_of(accounts@[index as int])
            })
        },
        r.outcome is Ok <==> passes(accounts@, balances@),
{
    let n = accounts.len();
    if n != balances.len() {
        return VerificationReport {
            trace: Vec::new(),
            outcome: Err(ZipperError::InvalidNumberOfAccountsOrBalances),
        };
    }
    let mut classified: Vec<ClassifiedAccount> = Vec::new();
    let mut i: usize = 0;
    while i < n
        invariant
            n == accounts@.len(),
            n == balances@.len(),
            i <= n,
            classified@.len() == i,
            forall|j: int| 0 <= j < i ==> classifiable(#[trigger] accounts@[j]),
            forall|j: int|
                0 <= j < i ==> {
                    &&& (#[trigger] classified@[j]).record.spec_amount() as nat == actual_balance(
                        accounts@[j],
                    )
                    &&& classified@[j].identity@ == identity_of(accounts@[j])
                },
        decreases n - i,
    {
        match classify(&accounts[i]) {
            Ok(c) => {
                classified.push(c);
            },
            Err(_) => {
                proof {
                    assert(is_first_unclassifiable(accounts@, i as int));
                    assert(!all_classifiable(accounts@));
                }
                return VerificationReport {
                    trace: Vec::new(),
                    outcome: Err(ZipperError::NonSOLOrSPLAccountProvided { index: i }),
                };
            },
        }
        i = i + 1;
    }
    assert(all_classifiable(accounts@));
    let mut trace: Vec<CheckRecord> = Vec::new();
    let mut first: Option<usize> = None;
    let mut k: usize = 0;
    while k < n
        invariant
            n == accounts@.len(),
            n == balances@.len(),
            n == classified@.len(),
            k <= n,
            all_classifiable(accounts@),
            forall|j: int|
                0 <= j < n ==> {
                    &&& (#[trigger] classified@[j]).record.spec_amount() as nat == actual_balance(
                        accounts@[j],
                    )
                    &&& classified@[j].identity@ == identity_of(accounts@[j])
                },
            trace@.len() == k,
            forall|j: int| 0 <= j < k ==> record_matches(#[trigger] trace@[j], accounts@, balances@, j),
            first matches None ==> forall|j: int| 0 <= j < k ==> !#[trigger] shortfall_at(accounts@, balances@, j),
            first matches Some(f) ==> f < k && is_first_shortfall(accounts@, balances@, f as int),
        decreases n - k,
    {
        let actual = classified[k].record.amount();
        let expected = balances[k];
        let passed = actual >= expected;
        let identity = classified[k].identity.clone();
        trace.push(CheckRecord { index: k, expected, actual, identity, passed });
        if !passed && first.is_none() {
            first = Some(k);
        }
        k = k + 1;
    }
    match first {
        None => {
            VerificationReport { trace, outcome: Ok(()) }
        },
        Some(f) => {
            let failed = &trace[f];
            let outcome = Err(ZipperError::InsufficientBalance {
                index: f,
                expected: failed.expected,
                actual: failed.actual,
                identity: failed.identity.clone(),
            });
            VerificationReport { trace, outcome }
        },
    }
}

} // verus!
