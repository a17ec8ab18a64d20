use vstd::prelude::*;

use anchor_spl::token_2022::spl_token_2022;
use spl_token_2022::extension::{transfer_fee, transfer_hook, BaseStateWithExtensions, StateWithExtensions};
use spl_token_2022::state::Mint;

use crate::errors::{DuneError, ErrorCode};
use crate::key::Key;

verus! {

/// A transfer fee of the token-2022 transfer-fee extension.
#[derive(Clone, Copy, Debug, PartialEq, Eq, Structural)]
pub struct TransferFee {
    /// First epoch where the fee takes effect.
    pub epoch: u64,
    /// Largest fee charged on one transfer, in tokens.
    pub maximum_fee: u64,
    /// Fee in basis points of the transferred amount.
    pub transfer_fee_basis_points: u16,
}

/// The two transfer fees that a mint's transfer-fee extension holds.
#[derive(Clone, Copy, Debug, PartialEq, Eq, Structural)]
pub struct TransferFeeConfig {
    /// Fee used before `newer_transfer_fee.epoch`.
    pub older_transfer_fee: TransferFee,
    /// Fee used from `newer_transfer_fee.epoch` on.
    pub newer_transfer_fee: TransferFee,
}

/// A transfer amount split into what arrives and the fee withheld.
#[derive(Clone, Copy, Debug, PartialEq, Eq, Structural)]
pub struct TransferFeeExcludedAmount {
    pub amount: u64,
    pub transfer_fee: u64,
}

/// The bytes of the address of the SPL Token program.
pub open spec fn token_program_bytes() -> Seq<u8> {
    seq![
        6u8, 221, 246, 225, 215, 101, 161, 147, 217, 203, 225, 70, 206, 235, 121, 172,
        28, 180, 133, 237, 95, 91, 55, 145, 58, 140, 245, 133, 126, 255, 0, 169,
    ]
}

/// What the token-2022 parser makes of a mint account's data: the error code
/// of a mint it cannot unpack, or the transfer-fee extension if it finds one.
pub uninterp spec fn mint_transfer_fee_config(data: Seq<u8>) -> Result<Option<TransferFeeConfig>, u64>;

/// What the token-2022 parser makes of a mint account's data: the error code
/// of a mint it cannot unpack, or the program set in its transfer-hook
/// extension.
pub uninterp spec fn mint_transfer_hook_program_id(data: Seq<u8>) -> Result<Option<Key>, u64>;

/// The fee charged on a transfer of `amount`: the basis points of the amount,
/// rounded up and capped at the maximum fee; `None` where the uncapped fee
/// does not fit in a `u64`.
pub open spec fn fee_for_amount(fee: TransferFee, amount: u64) -> Option<u64> {
    if fee.transfer_fee_basis_points == 0 || amount == 0 {
        Some(0u64)
    } else {
        let raw = (amount * fee.transfer_fee_basis_points + 9999) / 10000;
        if raw > u64::MAX {
            None
        } else if raw <= fee.maximum_fee {
            Some(raw as u64)
        } else {
            Some(fee.maximum_fee)
        }
    }
}

/// The fee in force at `epoch`.
pub open spec fn epoch_fee(config: TransferFeeConfig, epoch: u64) -> TransferFee {
    if epoch >= config.newer_transfer_fee.epoch {
        config.newer_transfer_fee
    } else {
        config.older_transfer_fee
    }
}

/// The digit `d` as a character.
pub open spec fn digit_char(d: nat) -> char {
    (48 + d) as char
}

/// The decimal notation of `n`, without leading zeros.
pub open spec fn decimal(n: nat) -> Seq<char>
    decreases n,
{
    if n < 10 {
        seq![digit_char(n)]
    } else {
        decimal(n / 10).push(digit_char(n % 10))
    }
}

/// The memo that records an applied transfer fee: `TFe: <bps>, <max>`.
pub open spec fn transfer_fee_memo_text(basis_points: u16, maximum_fee: u64) -> Seq<char> {
    seq!['T', 'F', 'e', ':', ' '] + decimal(basis_points as nat) + seq![',', ' '] + decimal(
        maximum_fee as nat,
    )
}

/// The address of the SPL Token program (`anchor_spl::token::ID`): its
/// bytes are those of `TokenkegQfeZyiNwAJbNbGKPFXCWuBvf9Ss623VQ5DA`.
#[verifier::external_body]
fn token_program_id() -> (k: Key)
    ensures
        k.bytes@ == token_program_bytes(),
{
    Key { bytes: anchor_spl::token::ID.to_bytes() }
}

/// Unpacks mint data with token-2022's `StateWithExtensions::<Mint>::unpack`
/// and reads its `TransferFeeConfig` extension with `get_extension`. An unpack
/// error is returned as its `u64` code; any error of `get_extension` means no
/// extension. The result is named, not stated.
#[verifier::external_body]
fn unpack_transfer_fee_config(data: &[u8]) -> (r: Result<Option<TransferFeeConfig>, u64>)
    ensures
        r == mint_transfer_fee_config(data@),
{
    let state = StateWithExtensions::<Mint>::unpack(data).map_err(u64::from)?;
    match state.get_extension::<transfer_fee::TransferFeeConfig>() {
        Ok(c) => {
            let (o, n) = (&c.older_transfer_fee, &c.newer_transfer_fee);
            Ok(Some(TransferFeeConfig {
                older_transfer_fee: TransferFee { epoch: o.epoch.into(), maximum_fee: o.maximum_fee.into(),
                    transfer_fee_basis_points: o.transfer_fee_basis_points.into() },
                newer_transfer_fee: TransferFee { epoch: n.epoch.into(), maximum_fee: n.maximum_fee.into(),
                    transfer_fee_basis_points: n.transfer_fee_basis_points.into() },
            }))
        },
        Err(_) => Ok(None),
    }
}

/// Unpacks mint data with token-2022's `StateWithExtensions::<Mint>::unpack`
/// and reads it with `extension::transfer_hook::get_program_id`. An unpack
/// error is returned as its `u64` code. The result is named, not stated.
#[verifier::external_body]
fn unpack_transfer_hook_program_id(data: &[u8]) -> (r: Result<Option<Key>, u64>)
    ensures
        r == mint_transfer_hook_program_id(data@),
{
    let state = StateWithExtensions::<Mint>::unpack(data).map_err(u64::from)?;
    match transfer_hook::get_program_id(&state) {
        Some(k) => Ok(Some(Key { bytes: k.to_bytes() })),
        None => Ok(None),
    }
}

/// Token-2022's `TransferFee::calculate_fee`: zero for a zero rate or a zero
/// amount, else `ceil(amount * bps / 10000)` capped at the maximum fee, and
/// `None` where that ceiling does not fit in a `u64`.
#[verifier::external_body]
fn calculate_fee(fee: &TransferFee, pre_fee_amount: u64) -> (r: Option<u64>)
    ensures
        r == fee_for_amount(*fee, pre_fee_amount),
{
    let f = transfer_fee::TransferFee {
        epoch: fee.epoch.into(),
        maximum_fee: fee.maximum_fee.into(),
        transfer_fee_basis_points: fee.transfer_fee_basis_points.into(),
    };
    f.calculate_fee(pre_fee_amount)
}

/// std's `ToString` on a `u64`, through its `Display`: the decimal notation
/// of `n`, without leading zeros.
#[verifier::external_body]
fn decimal_string(n: u64) -> (s: String)
    ensures
        s@ == decimal(n as nat),
{
    n.to_string()
}

/// The memo that records an applied transfer fee: `TFe: <bps>, <max>`.
fn format_transfer_fee_memo(basis_points: u16, maximum_fee: u64) -> (s: String)
    ensures
        s@ == transfer_fee_memo_text(basis_points, maximum_fee),
{
    let bps = decimal_string(basis_points as u64);
    let max = decimal_string(maximum_fee);
    let mut memo = String::from_str("TFe: ");
    memo.append(bps.as_str());
    memo.append(", ");
    memo.append(max.as_str());
    proof {
        reveal_strlit("TFe: ");
        reveal_strlit(", ");
        assert(memo@ =~= transfer_fee_memo_text(basis_points, maximum_fee));
    }
    memo
}

impl TransferFeeConfig {
    /// The fee in force at `epoch`: the newer fee from its epoch on, the
    /// older one before.
    pub fn get_epoch_fee(&self, epoch: u64) -> (f: TransferFee)
        ensures
            f == epoch_fee(*self, epoch),
            epoch >= self.newer_transfer_fee.epoch ==> f == self.newer_transfer_fee,
            epoch < self.newer_transfer_fee.epoch ==> f == self.older_transfer_fee,
    {
        if epoch >= self.newer_transfer_fee.epoch {
            self.newer_transfer_fee
        } else {
            self.older_transfer_fee
        }
    }
}

/// The transfer fee in force at `epoch`, from what the parser made of a
/// mint's data.
pub open spec fn epoch_fee_of(
    unpacked: Result<Option<TransferFeeConfig>, u64>,
    epoch: u64,
) -> Result<Option<TransferFee>, DuneError> {
    match unpacked {
        Err(code) => Err(DuneError::Program(code)),
        Ok(None) => Ok(None),
        Ok(Some(config)) => Ok(Some(epoch_fee(config, epoch))),
    }
}

/// The transfer-hook program, from what the parser made of a mint's data.
pub open spec fn hook_program_of(unpacked: Result<Option<Key>, u64>) -> Result<Option<Key>, DuneError> {
    match unpacked {
        Err(code) => Err(DuneError::Program(code)),
        Ok(id) => Ok(id),
    }
}

/// A transfer of `amount` under an optional fee, split into what arrives and
/// the fee; a fee that cannot be computed, or that exceeds the amount, means
/// the fee rate is too large.
pub open spec fn excluded_amount(fee: Option<TransferFee>, amount: u64) -> Result<TransferFeeExcludedAmount, DuneError> {
    match fee {
        None => Ok(TransferFeeExcludedAmount { amount: amount, transfer_fee: 0 }),
        Some(f) => match fee_for_amount(f, amount) {
            None => Err(DuneError::Dune(ErrorCode::FeeRateIsTooLarge)),
            Some(charged) => if charged > amount {
                Err(DuneError::Dune(ErrorCode::FeeRateIsTooLarge))
            } else {
                Ok(TransferFeeExcludedAmount { amount: (amount - charged) as u64, transfer_fee: charged })
            },
        },
    }
}

/// The transfer fee that a mint charges at `epoch`: none for a mint of the
/// SPL Token program; for a token-2022 mint, the fee of its transfer-fee
/// extension in force at `epoch`, if it has one.
pub fn get_epoch_transfer_fee(mint_owner: &Key, mint_data: &[u8], epoch: u64) -> (r: Result<Option<TransferFee>, DuneError>)
    ensures
        mint_owner.bytes@ == token_program_bytes() ==> r == Ok::<Option<TransferFee>, DuneError>(None),
        mint_owner.bytes@ != token_program_bytes() ==> r == epoch_fee_of(mint_transfer_fee_config(mint_data@), epoch),
{
    let token_program = token_program_id();
    if *mint_owner == token_program {
        return Ok(None);
    }
    let unpacked = unpack_transfer_fee_config(mint_data);
    select_epoch_transfer_fee(unpacked, epoch)
}

/// The transfer fee in force at `epoch`, given what the parser made of a
/// mint's data: its error, no extension, or the extension's fees.
pub fn select_epoch_transfer_fee(
    unpacked: Result<Option<TransferFeeConfig>, u64>,
    epoch: u64,
) -> (r: Result<Option<TransferFee>, DuneError>)
    ensures
        r == epoch_fee_of(unpacked, epoch),
{
    match unpacked {
        Err(code) => Err(DuneError::Program(code)),
        Ok(None) => Ok(None),
        Ok(Some(config)) => Ok(Some(config.get_epoch_fee(epoch))),
    }
}

/// The program that a mint's transfer hook calls: none for a mint of the
/// SPL Token program; for a token-2022 mint, the program of its
/// transfer-hook extension, if it has one.
pub fn get_transfer_hook_program_id(mint_owner: &Key, mint_data: &[u8]) -> (r: Result<Option<Key>, DuneError>)
    ensures
        mint_owner.bytes@ == token_program_bytes() ==> r == Ok::<Option<Key>, DuneError>(None),
        mint_owner.bytes@ != token_program_bytes() ==> r == hook_program_of(mint_transfer_hook_program_id(mint_data@)),
{
    let token_program = token_program_id();
    if *mint_owner == token_program {
        return Ok(None);
    }
    let unpacked = unpack_transfer_hook_program_id(mint_data);
    select_transfer_hook_program_id(unpacked)
}

/// The transfer-hook program, given what the parser made of a mint's data.
pub fn select_transfer_hook_program_id(unpacked: Result<Option<Key>, u64>) -> (r: Result<Option<Key>, DuneError>)
    ensures
        r == hook_program_of(unpacked),
{
    match unpacked {
        Err(code) => Err(DuneError::Program(code)),
        Ok(id) => Ok(id),
    }
}

/// Splits a transfer of `transfer_fee_included_amount` under an optional fee
/// into what arrives and the fee withheld.
pub fn transfer_fee_excluded_amount(
    transfer_fee: Option<TransferFee>,
    transfer_fee_included_amount: u64,
) -> (r: Result<TransferFeeExcludedAmount, DuneError>)
    ensures
        r == excluded_amount(transfer_fee, transfer_fee_included_amount),
{
    match transfer_fee {
        None => Ok(TransferFeeExcludedAmount { amount: transfer_fee_included_amount, transfer_fee: 0 }),
        Some(f) => match calculate_fee(&f, transfer_fee_included_amount) {
            None => Err(DuneError::Dune(ErrorCode::FeeRateIsTooLarge)),
            Some(charged) => if charged > transfer_fee_included_amount {
                Err(DuneError::Dune(ErrorCode::FeeRateIsTooLarge))
            } else {
                Ok(TransferFeeExcludedAmount {
                    amount: transfer_fee_included_amount - charged,
                    transfer_fee: charged,
                })
            },
        },
    }
}

/// The amount that arrives when `transfer_fee_included_amount` of a mint is
/// transferred at `epoch`, and the fee withheld.
pub fn calculate_transfer_fee_excluded_amount(
    mint_owner: &Key,
    mint_data: &[u8],
    epoch: u64,
    transfer_fee_included_amount: u64,
) -> (r: Result<TransferFeeExcludedAmount, DuneError>)
    ensures
        ({
            let fee = if mint_owner.bytes@ == token_program_bytes() {
                Ok::<Option<TransferFee>, DuneError>(None)
            } else {
                epoch_fee_of(mint_transfer_fee_config(mint_data@), epoch)
            };
            match fee {
                Err(e) => r == Err::<TransferFeeExcludedAmount, DuneError>(e),
                Ok(f) => r == excluded_amount(f, transfer_fee_included_amount),
            }
        }),
{
    let fee = get_epoch_transfer_fee(mint_owner, mint_data, epoch)?;
    transfer_fee_excluded_amount(fee, transfer_fee_included_amount)
}

/// The memo that records an applied transfer fee, if there is one.
pub fn transfer_fee_memo(transfer_fee: Option<TransferFee>) -> (r: Option<String>)
    ensures
        match transfer_fee {
            None => r is None,
            Some(f) => r is Some && r->0@ == transfer_fee_memo_text(
                f.transfer_fee_basis_points,
                f.maximum_fee,
            ),
        },
{
    match transfer_fee {
        None => None,
        Some(f) => Some(format_transfer_fee_memo(f.transfer_fee_basis_points, f.maximum_fee)),
    }
}

/// The transfer-hook program that a transfer must call, which it can only do
/// with the hook's extra accounts.
pub fn require_transfer_hook_accounts(
    hook_program_id: Option<Key>,
    has_transfer_hook_accounts: bool,
) -> (r: Result<Option<Key>, DuneError>)
    ensures
        hook_program_id is Some && !has_transfer_hook_accounts ==> r == Err::<Option<Key>, DuneError>(
            DuneError::Dune(ErrorCode::NoExtraAccountsForTransferHook),
        ),
        hook_program_id is None || has_transfer_hook_accounts ==> r == Ok::<Option<Key>, DuneError>(hook_program_id),
{
    if hook_program_id.is_some() && !has_transfer_hook_accounts {
        return Err(DuneError::Dune(ErrorCode::NoExtraAccountsForTransferHook));
    }
    Ok(hook_program_id)
}

/// A transfer that goes through splits its amount exactly into what arrives
/// and the fee, the fee is at most the fee's maximum, and without a fee the
/// whole amount arrives.
pub proof fn excluded_amount_splits_transfer(fee: Option<TransferFee>, amount: u64)
    ensures
        excluded_amount(fee, amount) matches Ok(split) ==> split.amount + split.transfer_fee == amount,
        excluded_amount(fee, amount) matches Ok(split) ==> (fee matches Some(f) ==> split.transfer_fee
            <= f.maximum_fee),
        fee is None ==> excluded_amount(fee, amount) == Ok::<TransferFeeExcludedAmount, DuneError>(
            TransferFeeExcludedAmount { amount: amount, transfer_fee: 0 },
        ),
{
}

/// Under a fee of at most 10000 basis points (the whole amount), the fee
/// never exceeds the amount, so the transfer goes through.
pub proof fn fee_within_full_rate_goes_through(fee: TransferFee, amount: u64)
    requires
        fee.transfer_fee_basis_points <= 10000,
    ensures
        excluded_amount(Some(fee), amount) is Ok,
{
    if fee.transfer_fee_basis_points != 0 && amount != 0 {
        let n = amount * fee.transfer_fee_basis_points;
        assert(n <= amount * 10000) by (nonlinear_arith)
            requires
                n == amount * fee.transfer_fee_basis_points,
                fee.transfer_fee_basis_points <= 10000,
                amount >= 0,
        ;
        assert((n + 9999) / 10000 <= amount) by (nonlinear_arith)
            requires
                n <= amount * 10000,
                n >= 0,
        ;
    }
}

/// The fee in force at an epoch is the newer fee exactly from the newer
/// fee's epoch on, whatever the two rates are, and the older fee before it;
/// so once the newer fee is in force it stays in force at every later epoch.
pub proof fn epoch_fee_switches_at_newer_epoch(config: TransferFeeConfig, epoch: u64, later: u64)
    requires
        epoch <= later,
    ensures
        epoch >= config.newer_transfer_fee.epoch ==> epoch_fee(config, epoch) == config.newer_transfer_fee,
        epoch < config.newer_transfer_fee.epoch ==> epoch_fee(config, epoch) == config.older_transfer_fee,
        epoch_fee(config, epoch) == config.newer_transfer_fee && config.newer_transfer_fee
            != config.older_transfer_fee ==> epoch_fee(config, later) == config.newer_transfer_fee,
{
}

} // verus!
