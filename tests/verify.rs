use zipper::{verify, AccountHandle, AccountMeta, AccountZipper, ZipperError};

fn native(address: [u8; 32], lamports: u64) -> AccountHandle {
    AccountHandle { address, owner: [0u8; 32], lamports, data: vec![] }
}

fn asset(address: [u8; 32], mint: [u8; 32], amount: u64) -> AccountHandle {
    let mut data = vec![0u8; 165];
    data[..32].copy_from_slice(&mint);
    data[64..72].copy_from_slice(&amount.to_le_bytes());
    data[108] = 1;
    AccountHandle { address, owner: [6u8; 32], lamports: 1, data }
}

const ZERO_TEXT: &str = "11111111111111111111111111111111";

#[test]
fn all_satisfied() {
    let accounts = vec![native([0u8; 32], 100), asset([0u8; 32], [0u8; 32], 50)];
    let report = verify(&accounts, &[100, 50]);
    assert!(report.outcome.is_ok());
    assert_eq!(report.trace.len(), 2);
    assert_eq!(report.trace[0].index, 0);
    assert_eq!(report.trace[0].expected, 100);
    assert_eq!(report.trace[0].actual, 100);
    assert!(report.trace[0].passed);
    assert_eq!(report.trace[0].identity, format!("sol addr {}", ZERO_TEXT));
    assert_eq!(report.trace[1].index, 1);
    assert_eq!(report.trace[1].actual, 50);
    assert!(report.trace[1].passed);
    assert_eq!(report.trace[1].identity, format!("spl addr {}, mint {}", ZERO_TEXT, ZERO_TEXT));
}

#[test]
fn arity_mismatch() {
    let accounts = vec![native([0u8; 32], 100)];
    let report = verify(&accounts, &[100, 1]);
    assert!(matches!(report.outcome, Err(ZipperError::InvalidNumberOfAccountsOrBalances)));
    assert!(report.trace.is_empty());
}

#[test]
fn arity_mismatch_comes_before_classification() {
    let unknown = AccountHandle { address: [1u8; 32], owner: [9u8; 32], lamports: 0, data: vec![] };
    let report = verify(&[unknown], &[]);
    assert!(matches!(report.outcome, Err(ZipperError::InvalidNumberOfAccountsOrBalances)));
}

#[test]
fn classification_failure() {
    let unknown = AccountHandle { address: [1u8; 32], owner: [9u8; 32], lamports: 1000, data: vec![1, 2, 3] };
    let report = verify(&[unknown], &[0]);
    assert!(matches!(report.outcome, Err(ZipperError::NonSOLOrSPLAccountProvided { index: 0 })));
    assert!(report.trace.is_empty());
}

#[test]
fn classification_failure_reports_first_index() {
    let unknown = AccountHandle { address: [1u8; 32], owner: [9u8; 32], lamports: 1000, data: vec![] };
    let accounts = vec![native([2u8; 32], 1), unknown.clone(), unknown];
    let report = verify(&accounts, &[100, 0, 0]);
    assert!(matches!(report.outcome, Err(ZipperError::NonSOLOrSPLAccountProvided { index: 1 })));
}

#[test]
fn violation() {
    let report = verify(&[native([0u8; 32], 99)], &[100]);
    match report.outcome {
        Err(ZipperError::InsufficientBalance { index, expected, actual, identity }) => {
            assert_eq!(index, 0);
            assert_eq!(expected, 100);
            assert_eq!(actual, 99);
            assert_eq!(identity, format!("sol addr {}", ZERO_TEXT));
        }
        other => panic!("unexpected outcome {:?}", other),
    }
    assert_eq!(report.trace.len(), 1);
    assert!(!report.trace[0].passed);
}

#[test]
fn equal_balance_passes_and_one_less_fails() {
    assert!(verify(&[native([0u8; 32], 1000)], &[1000]).outcome.is_ok());
    assert!(verify(&[native([0u8; 32], 999)], &[1000]).outcome.is_err());
    assert!(verify(&[native([0u8; 32], 0)], &[0]).outcome.is_ok());
    assert!(verify(&[native([0u8; 32], 0)], &[1]).outcome.is_err());
    assert!(verify(&[native([0u8; 32], u64::MAX)], &[u64::MAX]).outcome.is_ok());
}

#[test]
fn one_violation_fails_everything() {
    let accounts = vec![native([1u8; 32], 10), native([2u8; 32], 3), native([3u8; 32], 10)];
    let report = verify(&accounts, &[10, 5, 10]);
    assert!(report.outcome.is_err());
    assert_eq!(report.trace.len(), 3);
    assert!(report.trace[0].passed);
    assert!(!report.trace[1].passed);
    assert!(report.trace[2].passed);
}

#[test]
fn every_pair_is_traced_and_first_violation_reported() {
    let accounts = vec![native([1u8; 32], 1), native([2u8; 32], 2), native([3u8; 32], 3)];
    let report = verify(&accounts, &[5, 5, 5]);
    assert_eq!(report.trace.len(), 3);
    assert!(report.trace.iter().all(|r| !r.passed));
    assert!(matches!(report.outcome, Err(ZipperError::InsufficientBalance { index: 0, actual: 1, .. })));
}

#[test]
fn swapping_pairs_moves_the_reported_index() {
    let x = native([0u8; 32], 10);
    let y = native([1u8; 32], 3);
    let y_identity = format!("sol addr {}", "4vJ9JU1bJJE96FWSJKvHsmmFADCg4gpZQff4P3bkLKi");
    let report = verify(&[x.clone(), y.clone()], &[10, 5]);
    match report.outcome {
        Err(ZipperError::InsufficientBalance { index, expected, actual, identity }) => {
            assert_eq!((index, expected, actual), (1, 5, 3));
            assert_eq!(identity, y_identity);
        }
        other => panic!("unexpected outcome {:?}", other),
    }
    let report = verify(&[y, x], &[5, 10]);
    match report.outcome {
        Err(ZipperError::InsufficientBalance { index, expected, actual, identity }) => {
            assert_eq!((index, expected, actual), (0, 5, 3));
            assert_eq!(identity, y_identity);
        }
        other => panic!("unexpected outcome {:?}", other),
    }
}

#[test]
fn swapping_passing_pairs_still_passes() {
    let x = native([0u8; 32], 10);
    let y = asset([1u8; 32], [2u8; 32], 3);
    assert!(verify(&[x.clone(), y.clone()], &[10, 3]).outcome.is_ok());
    assert!(verify(&[y, x], &[3, 10]).outcome.is_ok());
}

#[test]
fn empty_request_passes() {
    let report = verify(&[], &[]);
    assert!(report.outcome.is_ok());
    assert!(report.trace.is_empty());
}

#[test]
fn zip_accounts_keeps_order_and_flags() {
    let metas = AccountZipper::zip_accounts(&[[1u8; 32], [2u8; 32], [1u8; 32]]);
    assert_eq!(
        metas,
        vec![
            AccountMeta { pubkey: [1u8; 32], is_signer: false, is_writable: false },
            AccountMeta { pubkey: [2u8; 32], is_signer: false, is_writable: false },
            AccountMeta { pubkey: [1u8; 32], is_signer: false, is_writable: false },
        ]
    );
    assert!(AccountZipper::zip_accounts(&[]).is_empty());
}
