use crate::ico::error::ContractError;
use crate::ico::msg::{
    FundingAmountResponse, IcoInfoResponse, IcoInfoResponseView, IsFundingFinishedResponse,
    TokenAddressResponse, TotalFundingAmountResponse,
};
use crate::ico::state::{Config, Funding};
use vstd::prelude::*;

verus! {

/// The terms of the fundraising.
pub fn ico_info(config: &Config) -> (r: IcoInfoResponse)
    ensures
        r@ == (IcoInfoResponseView {
            admin: config.admin@,
            token_name: config.token_name@,
            token_symbol: config.token_symbol@,
            target_funding_amount: config.target_funding_amount,
            deadline: config.deadline,
        }),
{
    IcoInfoResponse {
        admin: config.admin.clone(),
        token_name: config.token_name.clone(),
        token_symbol: config.token_symbol.clone(),
        target_funding_amount: config.target_funding_amount,
        deadline: config.deadline,
    }
}

/// What `funding_amount` answers: what is stored under an address, where
/// the host took the address for one and something is stored under it.
pub open spec fn funding_amount_of(address_ok: bool, funded: Option<u128>) -> Result<
    FundingAmountResponse,
    ContractError,
> {
    if !address_ok {
        Err(ContractError::Generic)
    } else {
        match funded {
            Some(amount) => Ok(FundingAmountResponse { amount }),
            None => Err(ContractError::NotFound),
        }
    }
}

/// What one funder has paid in. `address_ok` is the host's verdict on the
/// address asked about and `funded` what is stored under it, if anything.
pub fn funding_amount(address_ok: bool, funded: Option<u128>) -> (r: Result<
    FundingAmountResponse,
    ContractError,
>)
    ensures
        r == funding_amount_of(address_ok, funded),
{
    if !address_ok {
        return Err(ContractError::Generic);
    }
    match funded {
        Some(amount) => Ok(FundingAmountResponse { amount }),
        None => Err(ContractError::NotFound),
    }
}

/// The sum of all contributions.
pub open spec fn total_of(funding: Seq<Funding>) -> nat
    decreases funding.len(),
{
    if funding.len() == 0 {
        0
    } else {
        total_of(funding.drop_last()) + funding.last().amount as nat
    }
}

/// The sum of the first contributions is at most the sum of all.
pub proof fn lemma_total_grows(funding: Seq<Funding>, n: int)
    requires
        0 <= n <= funding.len(),
    ensures
        total_of(funding.take(n)) <= total_of(funding),
    decreases funding.len() - n,
{
    if n < funding.len() {
        assert(funding.take(n + 1).drop_last() == funding.take(n));
        lemma_total_grows(funding, n + 1);
    } else {
        assert(funding.take(n) == funding);
    }
}

/// What all funders have paid in, or an overflow where the sum does not fit
/// 128 bits.
pub fn total_funding_amount(funding: &Vec<Funding>) -> (r: Result<
    TotalFundingAmountResponse,
    ContractError,
>)
    ensures
        total_of(funding@) <= u128::MAX ==> r == Ok::<TotalFundingAmountResponse, ContractError>(
            TotalFundingAmountResponse { amount: total_of(funding@) as u128 },
        ),
        total_of(funding@) > u128::MAX ==> r == Err::<TotalFundingAmountResponse, ContractError>(
            ContractError::Overflow,
        ),
{
    let mut total: u128 = 0;
    let mut i: usize = 0;
    assert(funding@.take(0) == Seq::<Funding>::empty());
    while i < funding.len()
        invariant
            i <= funding.len(),
            total == total_of(funding@.take(i as int)),
        decreases funding.len() - i,
    {
        assert(funding@.take(i + 1).drop_last() == funding@.take(i as int));
        total = match total.checked_add(funding[i].amount) {
            Some(sum) => sum,
            None => {
                proof {
                    lemma_total_grows(funding@, i + 1);
                }
                return Err(ContractError::Overflow);
            },
        };
        i += 1;
    }
    assert(funding@.take(i as int) == funding@);
    Ok(TotalFundingAmountResponse { amount: total })
}

/// Whether the funding is over: the target is reached or the deadline has
/// passed.
pub fn funding_finished(config: &Config, block_height: u64) -> (r: IsFundingFinishedResponse)
    ensures
        r.status == (config.finished || block_height > config.deadline),
{
    IsFundingFinishedResponse { status: config.is_finished() || block_height > config.deadline }
}

/// The address of the channel token, empty until the token exists.
pub fn token_address(config: &Config) -> (r: TokenAddressResponse)
    ensures
        r.address@ == config.token_contract@,
{
    TokenAddressResponse { address: config.token_contract.clone() }
}

} // verus!
