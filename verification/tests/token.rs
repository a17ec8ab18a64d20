use anchor_lang::prelude::{ProgramError, Pubkey};
use anchor_lang::solana_program::program_option::COption;
use anchor_spl::token_2022::spl_token_2022::extension::transfer_fee::TransferFeeConfig as SplFeeConfig;
use anchor_spl::token_2022::spl_token_2022::extension::transfer_hook::TransferHook as SplHook;
use anchor_spl::token_2022::spl_token_2022::extension::{
    BaseStateWithExtensionsMut, ExtensionType, StateWithExtensionsMut,
};
use anchor_spl::token_2022::spl_token_2022::state::Mint;

use dune_staking::errors::{DuneError, ErrorCode};
use dune_staking::key::Key;
use dune_staking::token::{
    calculate_transfer_fee_excluded_amount, get_epoch_transfer_fee, get_transfer_hook_program_id,
    require_transfer_hook_accounts, select_epoch_transfer_fee, select_transfer_hook_program_id,
    transfer_fee_excluded_amount, transfer_fee_memo, TransferFee, TransferFeeConfig,
    TransferFeeExcludedAmount,
};

type Fee = (u64, u64, u16);

fn mint_data(fee: Option<(Fee, Fee)>, hook: Option<[u8; 32]>) -> Vec<u8> {
    let mut types = vec![ExtensionType::MintCloseAuthority];
    if fee.is_some() {
        types.push(ExtensionType::TransferFeeConfig);
    }
    if hook.is_some() {
        types.push(ExtensionType::TransferHook);
    }
    let len = ExtensionType::try_calculate_account_len::<Mint>(&types).unwrap();
    let mut data = vec![0u8; len];
    let mut state = StateWithExtensionsMut::<Mint>::unpack_uninitialized(&mut data).unwrap();
    state
        .init_extension::<anchor_spl::token_2022::spl_token_2022::extension::mint_close_authority::MintCloseAuthority>(true)
        .unwrap();
    if let Some((older, newer)) = fee {
        let c = state.init_extension::<SplFeeConfig>(true).unwrap();
        c.older_transfer_fee.epoch = older.0.into();
        c.older_transfer_fee.maximum_fee = older.1.into();
        c.older_transfer_fee.transfer_fee_basis_points = older.2.into();
        c.newer_transfer_fee.epoch = newer.0.into();
        c.newer_transfer_fee.maximum_fee = newer.1.into();
        c.newer_transfer_fee.transfer_fee_basis_points = newer.2.into();
    }
    if let Some(program) = hook {
        let h = state.init_extension::<SplHook>(true).unwrap();
        h.program_id = Some(Pubkey::new_from_array(program)).try_into().unwrap();
    }
    state.base = Mint {
        mint_authority: COption::None,
        supply: 0,
        decimals: 6,
        is_initialized: true,
        freeze_authority: COption::None,
    };
    state.pack_base();
    state.init_account_type().unwrap();
    data
}

fn token_program() -> Key {
    Key::new(anchor_spl::token::ID.to_bytes())
}

fn token_2022_program() -> Key {
    Key::new(anchor_spl::token_2022::ID.to_bytes())
}

fn fee(epoch: u64, maximum_fee: u64, bps: u16) -> TransferFee {
    TransferFee { epoch, maximum_fee, transfer_fee_basis_points: bps }
}

#[test]
fn spl_token_program_mints_have_no_fee_and_no_hook() {
    let garbage = [1u8, 2, 3];
    assert_eq!(get_epoch_transfer_fee(&token_program(), &garbage, 5), Ok(None));
    assert_eq!(get_transfer_hook_program_id(&token_program(), &garbage), Ok(None));
}

#[test]
fn unreadable_mint_data_is_a_program_error() {
    let garbage = [1u8, 2, 3];
    let code = u64::from(ProgramError::InvalidAccountData);
    assert_eq!(get_epoch_transfer_fee(&token_2022_program(), &garbage, 5), Err(DuneError::Program(code)));
    assert_eq!(get_transfer_hook_program_id(&token_2022_program(), &garbage), Err(DuneError::Program(code)));
}

#[test]
fn mint_without_extensions_has_no_fee_and_no_hook() {
    let data = mint_data(None, None);
    assert_eq!(get_epoch_transfer_fee(&token_2022_program(), &data, 5), Ok(None));
    assert_eq!(get_transfer_hook_program_id(&token_2022_program(), &data), Ok(None));
}

#[test]
fn epoch_fee_is_read_from_the_mint() {
    let data = mint_data(Some(((0, 100, 50), (10, 2000, 300))), None);
    assert_eq!(get_epoch_transfer_fee(&token_2022_program(), &data, 9), Ok(Some(fee(0, 100, 50))));
    assert_eq!(get_epoch_transfer_fee(&token_2022_program(), &data, 10), Ok(Some(fee(10, 2000, 300))));
    assert_eq!(get_epoch_transfer_fee(&token_2022_program(), &data, 11), Ok(Some(fee(10, 2000, 300))));
}

#[test]
fn hook_program_is_read_from_the_mint() {
    let data = mint_data(None, Some([9u8; 32]));
    let r = get_transfer_hook_program_id(&token_2022_program(), &data).unwrap();
    assert!(r.unwrap() == Key::new([9u8; 32]));
}

#[test]
fn select_epoch_fee_from_given_results() {
    let config = TransferFeeConfig { older_transfer_fee: fee(0, 1, 2), newer_transfer_fee: fee(7, 3, 4) };
    assert_eq!(select_epoch_transfer_fee(Ok(Some(config)), 6), Ok(Some(fee(0, 1, 2))));
    assert_eq!(select_epoch_transfer_fee(Ok(Some(config)), 7), Ok(Some(fee(7, 3, 4))));
    assert_eq!(select_epoch_transfer_fee(Ok(None), 7), Ok(None));
    assert_eq!(select_epoch_transfer_fee(Err(17), 7), Err(DuneError::Program(17)));
    assert_eq!(config.get_epoch_fee(100), fee(7, 3, 4));
    assert_eq!(select_transfer_hook_program_id(Err(3)).err(), Some(DuneError::Program(3)));
    assert!(select_transfer_hook_program_id(Ok(None)).unwrap().is_none());
}

#[test]
fn fee_excluded_amount_rounds_the_fee_up_and_caps_it() {
    assert_eq!(
        transfer_fee_excluded_amount(None, 1000),
        Ok(TransferFeeExcludedAmount { amount: 1000, transfer_fee: 0 })
    );
    // 1% of 1000 is 10.
    assert_eq!(
        transfer_fee_excluded_amount(Some(fee(0, 5000, 100)), 1000),
        Ok(TransferFeeExcludedAmount { amount: 990, transfer_fee: 10 })
    );
    // 1% of 1 is rounded up to 1.
    assert_eq!(
        transfer_fee_excluded_amount(Some(fee(0, 5000, 100)), 1),
        Ok(TransferFeeExcludedAmount { amount: 0, transfer_fee: 1 })
    );
    // Capped at the maximum fee.
    assert_eq!(
        transfer_fee_excluded_amount(Some(fee(0, 7, 100)), 1_000_000),
        Ok(TransferFeeExcludedAmount { amount: 999_993, transfer_fee: 7 })
    );
    // A zero rate or a zero amount costs nothing.
    assert_eq!(
        transfer_fee_excluded_amount(Some(fee(0, 7, 0)), 1000),
        Ok(TransferFeeExcludedAmount { amount: 1000, transfer_fee: 0 })
    );
    assert_eq!(
        transfer_fee_excluded_amount(Some(fee(0, 7, 100)), 0),
        Ok(TransferFeeExcludedAmount { amount: 0, transfer_fee: 0 })
    );
}

#[test]
fn fee_above_the_amount_is_refused() {
    // 200% of 10 is 20, more than the amount.
    assert_eq!(
        transfer_fee_excluded_amount(Some(fee(0, u64::MAX, 20000)), 10),
        Err(DuneError::Dune(ErrorCode::FeeRateIsTooLarge))
    );
    // A fee that does not fit in a u64.
    assert_eq!(
        transfer_fee_excluded_amount(Some(fee(0, u64::MAX, 65535)), u64::MAX),
        Err(DuneError::Dune(ErrorCode::FeeRateIsTooLarge))
    );
}

#[test]
fn fee_excluded_amount_of_a_mint() {
    let data = mint_data(Some(((0, 100, 50), (10, 2000, 300))), None);
    assert_eq!(
        calculate_transfer_fee_excluded_amount(&token_2022_program(), &data, 12, 10_000),
        Ok(TransferFeeExcludedAmount { amount: 9_700, transfer_fee: 300 })
    );
    assert_eq!(
        calculate_transfer_fee_excluded_amount(&token_program(), &data, 12, 10_000),
        Ok(TransferFeeExcludedAmount { amount: 10_000, transfer_fee: 0 })
    );
}

#[test]
fn fee_memo_text() {
    assert_eq!(transfer_fee_memo(Some(fee(3, 5000, 100))).unwrap(), "TFe: 100, 5000");
    assert_eq!(transfer_fee_memo(Some(fee(3, 0, 0))).unwrap(), "TFe: 0, 0");
    assert_eq!(transfer_fee_memo(None), None);
}

#[test]
fn hook_needs_its_extra_accounts() {
    let program = Key::new([4u8; 32]);
    assert_eq!(
        require_transfer_hook_accounts(Some(program), false).err(),
        Some(DuneError::Dune(ErrorCode::NoExtraAccountsForTransferHook))
    );
    assert!(require_transfer_hook_accounts(Some(program), true).unwrap().unwrap() == program);
    assert!(require_transfer_hook_accounts(None, false).unwrap().is_none());
}
