use xshare::bloom::bloom_insert;
use xshare::error::{GeneralError, ProgramError};
use xshare::types::AccountInfo;
use xshare::utils::{clock32, close_account, pay_to_user, verify_signature};

#[test]
fn paying_moves_lamports() {
    let mut a = AccountInfo { key: [1; 32], lamports: 100, data: vec![1] };
    let mut b = AccountInfo { key: [2; 32], lamports: 5, data: vec![] };
    assert_eq!(pay_to_user(&mut a, &mut b, 30), Ok(()));
    assert_eq!((a.lamports, b.lamports), (70, 35));
}

#[test]
fn closing_zeroes_the_account() {
    let mut a = AccountInfo { key: [1; 32], lamports: 100, data: vec![1, 2, 3] };
    let mut b = AccountInfo { key: [2; 32], lamports: 5, data: vec![] };
    assert_eq!(close_account(&mut a, &mut b), Ok(()));
    assert_eq!((a.lamports, b.lamports, a.data), (0, 105, vec![0, 0, 0]));
}

#[test]
fn closing_into_a_full_account_is_refused() {
    let mut a = AccountInfo { key: [1; 32], lamports: 100, data: vec![1] };
    let mut b = AccountInfo { key: [2; 32], lamports: u64::MAX, data: vec![] };
    assert_eq!(close_account(&mut a, &mut b), Err(ProgramError::InvalidArgument));
    assert_eq!((a.lamports, a.data, b.lamports), (0, vec![1], u64::MAX));
}

#[test]
fn the_clock_is_clamped() {
    assert_eq!(clock32(-5), 0);
    assert_eq!(clock32(1_700_000_000), 1_700_000_000);
    assert_eq!(clock32(i64::MAX), u32::MAX);
}

#[test]
fn a_forged_signature_is_refused() {
    assert_eq!(verify_signature(b"hi", &[0; 64], &[1; 32]), Err(GeneralError::GeneralError));
}

#[test]
fn a_filter_reports_what_it_holds() {
    let mut data = vec![0u8; 64];
    assert!(bloom_insert(&mut data, 4, b"alice", 400));
    assert!(!bloom_insert(&mut data, 4, b"alice", 400));
    let snapshot = data.clone();
    assert!(!bloom_insert(&mut data, 4, b"alice", 400));
    assert_eq!(data, snapshot);
    assert!(data[..4].iter().all(|b| *b == 0));
}
