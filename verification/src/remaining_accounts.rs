use vstd::prelude::*;

use crate::errors::ErrorCode;

verus! {

/// The kinds of extra accounts an instruction can be handed after its fixed
/// accounts.
#[derive(Clone, Copy, Debug, PartialEq, Eq, Structural)]
pub enum AccountsType {
    /// Extra accounts of the deposit mint's transfer hook.
    TransferHookA,
    /// Extra accounts of the reward mint's transfer hook.
    TransferHookB,
}

/// A run of `length` remaining accounts of one kind.
#[derive(Clone, Copy, Debug, PartialEq, Eq, Structural)]
pub struct RemainingAccountsSlice {
    pub accounts_type: AccountsType,
    pub length: u8,
}

/// How the remaining accounts divide into runs, in order.
#[derive(Debug)]
pub struct RemainingAccountsInfo {
    pub slices: Vec<RemainingAccountsSlice>,
}

/// A run of remaining accounts: `len` accounts from index `start`.
#[derive(Clone, Copy, Debug, PartialEq, Eq, Structural)]
pub struct AccountsRange {
    pub start: usize,
    pub len: usize,
}

/// Where the transfer-hook accounts of each mint lie among the remaining
/// accounts.
#[derive(Clone, Copy, Debug, PartialEq, Eq, Structural)]
pub struct ParsedRemainingAccounts {
    pub transfer_hook_input: Option<AccountsRange>,
    pub transfer_hook_output: Option<AccountsRange>,
}

/// No runs found.
pub open spec fn no_runs() -> ParsedRemainingAccounts {
    ParsedRemainingAccounts { transfer_hook_input: None, transfer_hook_output: None }
}

/// Reads one run at `cursor` among `available` remaining accounts: a kind
/// not in `valid` is an invalid slice; an empty run is skipped; a run longer
/// than what is left is insufficient; a kind already read is a duplicate.
pub open spec fn parse_slice(
    slice: RemainingAccountsSlice,
    valid: Seq<AccountsType>,
    available: nat,
    cursor: nat,
    parsed: ParsedRemainingAccounts,
) -> Result<(nat, ParsedRemainingAccounts), ErrorCode> {
    if !valid.contains(slice.accounts_type) {
        Err(ErrorCode::RemainingAccountsInvalidSlice)
    } else if slice.length == 0 {
        Ok((cursor, parsed))
    } else if cursor + slice.length > available {
        Err(ErrorCode::RemainingAccountsInsufficient)
    } else {
        let range = AccountsRange { start: cursor as usize, len: slice.length as usize };
        let next = (cursor + slice.length) as nat;
        match slice.accounts_type {
            AccountsType::TransferHookA => if parsed.transfer_hook_input is Some {
                Err(ErrorCode::RemainingAccountsDuplicatedAccountsType)
            } else {
                Ok((next, ParsedRemainingAccounts { transfer_hook_input: Some(range), ..parsed }))
            },
            AccountsType::TransferHookB => if parsed.transfer_hook_output is Some {
                Err(ErrorCode::RemainingAccountsDuplicatedAccountsType)
            } else {
                Ok((next, ParsedRemainingAccounts { transfer_hook_output: Some(range), ..parsed }))
            },
        }
    }
}

/// The cursor and the runs after reading the first `k` slices.
pub open spec fn parse_slices(
    slices: Seq<RemainingAccountsSlice>,
    valid: Seq<AccountsType>,
    available: nat,
    k: nat,
) -> Result<(nat, ParsedRemainingAccounts), ErrorCode>
    decreases k,
{
    if k == 0 {
        Ok((0, no_runs()))
    } else {
        match parse_slices(slices, valid, available, (k - 1) as nat) {
            Err(e) => Err(e),
            Ok(state) => parse_slice(slices[k - 1], valid, available, state.0, state.1),
        }
    }
}

/// The runs that `info` describes among `available` remaining accounts.
pub open spec fn parsed_runs(
    info: Option<RemainingAccountsInfo>,
    valid: Seq<AccountsType>,
    available: nat,
) -> Result<ParsedRemainingAccounts, ErrorCode> {
    match info {
        None => Ok(no_runs()),
        Some(i) => match parse_slices(i.slices@, valid, available, i.slices@.len()) {
            Err(e) => Err(e),
            Ok(state) => Ok(state.1),
        },
    }
}

fn is_valid_type(valid: &[AccountsType], t: AccountsType) -> (r: bool)
    ensures
        r == valid@.contains(t),
{
    let mut i: usize = 0;
    while i < valid.len()
        invariant
            0 <= i <= valid@.len(),
            forall|j: int| 0 <= j < i ==> valid@[j] != t,
        decreases valid@.len() - i,
    {
        if valid[i] == t {
            return true;
        }
        i = i + 1;
    }
    false
}

/// Divides `remaining_accounts_len` remaining accounts into the runs that
/// `remaining_accounts_info` describes, accepting only the kinds in
/// `valid_accounts_type_list`. Without a description there are no runs.
pub fn parse_remaining_accounts(
    remaining_accounts_len: usize,
    remaining_accounts_info: &Option<RemainingAccountsInfo>,
    valid_accounts_type_list: &[AccountsType],
) -> (r: Result<ParsedRemainingAccounts, ErrorCode>)
    ensures
        r == parsed_runs(*remaining_accounts_info, valid_accounts_type_list@, remaining_accounts_len as nat),
{
    let mut parsed = ParsedRemainingAccounts { transfer_hook_input: None, transfer_hook_output: None };
    let info = match remaining_accounts_info {
        None => return Ok(parsed),
        Some(info) => info,
    };
    let ghost valid = valid_accounts_type_list@;
    let ghost available = remaining_accounts_len as nat;
    let mut cursor: usize = 0;
    let mut k: usize = 0;
    while k < info.slices.len()
        invariant
            0 <= k <= info.slices@.len(),
            cursor <= remaining_accounts_len,
            valid == valid_accounts_type_list@,
            available == remaining_accounts_len as nat,
            *remaining_accounts_info == Some(*info),
            parse_slices(info.slices@, valid, available, k as nat) == Ok::<(nat, ParsedRemainingAccounts), ErrorCode>(
                (cursor as nat, parsed),
            ),
        decreases info.slices@.len() - k,
    {
        let slice = info.slices[k];
        proof {
            assert(parse_slices(info.slices@, valid, available, (k + 1) as nat) == parse_slice(
                slice, valid, available, cursor as nat, parsed));
        }
        if !is_valid_type(valid_accounts_type_list, slice.accounts_type) {
            proof {
                lemma_parse_error_persists(info.slices@, valid, available, (k + 1) as nat, info.slices@.len());
            }
            return Err(ErrorCode::RemainingAccountsInvalidSlice);
        }
        if slice.length != 0 {
            let length = slice.length as usize;
            if length > remaining_accounts_len - cursor {
                proof {
                    lemma_parse_error_persists(info.slices@, valid, available, (k + 1) as nat, info.slices@.len());
                }
                return Err(ErrorCode::RemainingAccountsInsufficient);
            }
            let range = AccountsRange { start: cursor, len: length };
            match slice.accounts_type {
                AccountsType::TransferHookA => {
                    if parsed.transfer_hook_input.is_some() {
                        proof {
                            lemma_parse_error_persists(info.slices@, valid, available, (k + 1) as nat, info.slices@.len());
                        }
                        return Err(ErrorCode::RemainingAccountsDuplicatedAccountsType);
                    }
                    parsed = ParsedRemainingAccounts { transfer_hook_input: Some(range), ..parsed };
                },
                AccountsType::TransferHookB => {
                    if parsed.transfer_hook_output.is_some() {
                        proof {
                            lemma_parse_error_persists(info.slices@, valid, available, (k + 1) as nat, info.slices@.len());
                        }
                        return Err(ErrorCode::RemainingAccountsDuplicatedAccountsType);
                    }
                    parsed = ParsedRemainingAccounts { transfer_hook_output: Some(range), ..parsed };
                },
            }
            cursor = cursor + length;
        }
        k = k + 1;
    }
    Ok(parsed)
}

/// Once reading the first `k` slices fails, reading more fails the same way.
proof fn lemma_parse_error_persists(
    slices: Seq<RemainingAccountsSlice>,
    valid: Seq<AccountsType>,
    available: nat,
    k: nat,
    n: nat,
)
    requires
        k <= n,
        parse_slices(slices, valid, available, k) is Err,
    ensures
        parse_slices(slices, valid, available, n) == parse_slices(slices, valid, available, k),
    decreases n - k,
{
    if k < n {
        lemma_parse_error_persists(slices, valid, available, k, (n - 1) as nat);
    }
}

/// Whether a run ends within the first `bound` accounts.
pub open spec fn ends_within(range: AccountsRange, bound: nat) -> bool {
    range.start + range.len <= bound
}

/// Whether two runs share no account.
pub open spec fn runs_disjoint(a: AccountsRange, b: AccountsRange) -> bool {
    a.start + a.len <= b.start || b.start + b.len <= a.start
}

/// Whether the runs found lie within the first `bound` accounts and share no
/// account.
pub open spec fn runs_well_placed(parsed: ParsedRemainingAccounts, bound: nat) -> bool {
    &&& parsed.transfer_hook_input matches Some(a) ==> ends_within(a, bound)
    &&& parsed.transfer_hook_output matches Some(b) ==> ends_within(b, bound)
    &&& parsed.transfer_hook_input matches Some(a) ==> (parsed.transfer_hook_output matches Some(b)
        ==> runs_disjoint(a, b))
}

proof fn lemma_parse_slices_well_placed(
    slices: Seq<RemainingAccountsSlice>,
    valid: Seq<AccountsType>,
    available: nat,
    k: nat,
)
    requires
        k <= slices.len(),
        available <= usize::MAX,
    ensures
        parse_slices(slices, valid, available, k) matches Ok(state) ==> {
            &&& state.0 <= available
            &&& runs_well_placed(state.1, state.0)
        },
    decreases k,
{
    if k > 0 {
        lemma_parse_slices_well_placed(slices, valid, available, (k - 1) as nat);
        if let Ok(prev) = parse_slices(slices, valid, available, (k - 1) as nat) {
            let slice = slices[k - 1];
            if let Ok(next) = parse_slice(slice, valid, available, prev.0, prev.1) {
                assert(prev.0 <= next.0);
                let p = prev.1;
                let q = next.1;
                if let Some(a) = p.transfer_hook_input {
                    assert(ends_within(a, next.0));
                }
                if let Some(b) = p.transfer_hook_output {
                    assert(ends_within(b, next.0));
                }
                if slice.length != 0 {
                    let range = AccountsRange { start: prev.0 as usize, len: slice.length as usize };
                    assert(range.start == prev.0 && range.start + range.len == next.0);
                    if slice.accounts_type == AccountsType::TransferHookA {
                        assert(q.transfer_hook_input == Some(range));
                    } else {
                        assert(q.transfer_hook_output == Some(range));
                    }
                }
                assert(runs_well_placed(q, next.0));
            }
        }
    }
}

/// The remaining accounts handed to each mint's transfer hook lie among the
/// accounts actually passed, and no account is handed to both.
pub proof fn parsed_runs_are_disjoint(
    info: Option<RemainingAccountsInfo>,
    valid: Seq<AccountsType>,
    available: nat,
)
    requires
        available <= usize::MAX,
    ensures
        parsed_runs(info, valid, available) matches Ok(parsed) ==> runs_well_placed(parsed, available),
{
    if let Some(i) = info {
        lemma_parse_slices_well_placed(i.slices@, valid, available, i.slices@.len());
        if let Ok(state) = parse_slices(i.slices@, valid, available, i.slices@.len()) {
            assert(runs_well_placed(state.1, state.0));
        }
    }
}

} // verus!
