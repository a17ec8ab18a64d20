use dune_staking::errors::ErrorCode;
use dune_staking::remaining_accounts::{
    parse_remaining_accounts, AccountsRange, AccountsType, ParsedRemainingAccounts,
    RemainingAccountsInfo, RemainingAccountsSlice,
};

const BOTH: [AccountsType; 2] = [AccountsType::TransferHookA, AccountsType::TransferHookB];

fn info(slices: &[(AccountsType, u8)]) -> Option<RemainingAccountsInfo> {
    Some(RemainingAccountsInfo {
        slices: slices
            .iter()
            .map(|(t, n)| RemainingAccountsSlice { accounts_type: *t, length: *n })
            .collect(),
    })
}

#[test]
fn no_description_means_no_runs() {
    let r = parse_remaining_accounts(5, &None, &BOTH).unwrap();
    assert_eq!(r, ParsedRemainingAccounts { transfer_hook_input: None, transfer_hook_output: None });
}

#[test]
fn runs_are_laid_out_in_order() {
    let r = parse_remaining_accounts(
        6,
        &info(&[(AccountsType::TransferHookB, 2), (AccountsType::TransferHookA, 3)]),
        &BOTH,
    )
    .unwrap();
    assert_eq!(r.transfer_hook_output, Some(AccountsRange { start: 0, len: 2 }));
    assert_eq!(r.transfer_hook_input, Some(AccountsRange { start: 2, len: 3 }));
}

#[test]
fn empty_runs_are_skipped() {
    let r = parse_remaining_accounts(
        1,
        &info(&[(AccountsType::TransferHookA, 0), (AccountsType::TransferHookA, 1)]),
        &BOTH,
    )
    .unwrap();
    assert_eq!(r.transfer_hook_input, Some(AccountsRange { start: 0, len: 1 }));
    assert_eq!(r.transfer_hook_output, None);
}

#[test]
fn kind_outside_the_valid_list_is_refused() {
    let r = parse_remaining_accounts(
        4,
        &info(&[(AccountsType::TransferHookB, 1)]),
        &[AccountsType::TransferHookA],
    );
    assert_eq!(r, Err(ErrorCode::RemainingAccountsInvalidSlice));
}

#[test]
fn too_few_accounts_are_refused() {
    let r = parse_remaining_accounts(
        3,
        &info(&[(AccountsType::TransferHookA, 2), (AccountsType::TransferHookB, 2)]),
        &BOTH,
    );
    assert_eq!(r, Err(ErrorCode::RemainingAccountsInsufficient));
}

#[test]
fn repeated_kind_is_refused() {
    let r = parse_remaining_accounts(
        4,
        &info(&[(AccountsType::TransferHookA, 1), (AccountsType::TransferHookA, 1)]),
        &BOTH,
    );
    assert_eq!(r, Err(ErrorCode::RemainingAccountsDuplicatedAccountsType));
}

#[test]
fn runs_do_not_overlap() {
    let r = parse_remaining_accounts(
        10,
        &info(&[(AccountsType::TransferHookA, 4), (AccountsType::TransferHookB, 5)]),
        &BOTH,
    )
    .unwrap();
    let a = r.transfer_hook_input.unwrap();
    let b = r.transfer_hook_output.unwrap();
    assert!(a.start + a.len <= b.start);
    assert!(b.start + b.len <= 10);
}
