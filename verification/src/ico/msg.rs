use vstd::prelude::*;

verus! {

/// What a fundraising is created with.
#[derive(Debug)]
pub struct InstantiateMsg {
    pub target_funding: u128,
    /// The block height at which the funding ends.
    pub deadline: u64,
    pub token_code_id: u64,
    pub pair_code_id: u64,
    pub token_name: String,
    pub token_symbol: String,
    pub channel_token_amount: u128,
    /// Who receives the funds.
    pub recipient: String,
}

/// What a fundraising can be asked to do.
#[derive(Clone, Copy, Debug, PartialEq, Eq, Structural)]
pub enum ExecuteMsg {
    /// Pay the attached coins into the funding.
    FundChannelToken {  },
    /// Close the funding; only the administrator may.
    EndFunding {  },
    /// Take one's contribution back once the deadline has passed with the
    /// target missed.
    Refund {  },
    /// Send `amount` of the funds to the recipient.
    TransferFund { amount: u128 },
    /// Hand `amount` out to the token's holders, in proportion.
    Allocation { amount: u128 },
}

/// What a fundraising can be asked about.
#[derive(Debug)]
pub enum QueryMsg {
    IcoInfo {  },
    FundingAmount { addr: String },
    TotalFundingAmount {  },
    IsFundingFinished {  },
    TokenAddress {  },
}

/// The terms of a fundraising.
#[derive(Debug)]
pub struct IcoInfoResponse {
    pub admin: String,
    pub token_name: String,
    pub token_symbol: String,
    pub target_funding_amount: u128,
    pub deadline: u64,
}

/// The mathematical value of an [`IcoInfoResponse`].
pub struct IcoInfoResponseView {
    pub admin: Seq<char>,
    pub token_name: Seq<char>,
    pub token_symbol: Seq<char>,
    pub target_funding_amount: u128,
    pub deadline: u64,
}

impl View for IcoInfoResponse {
    type V = IcoInfoResponseView;

    open spec fn view(&self) -> IcoInfoResponseView {
        IcoInfoResponseView {
            admin: self.admin@,
            token_name: self.token_name@,
            token_symbol: self.token_symbol@,
            target_funding_amount: self.target_funding_amount,
            deadline: self.deadline,
        }
    }
}

/// What one funder has paid in.
#[derive(Clone, Copy, Debug, PartialEq, Eq, Structural)]
pub struct FundingAmountResponse {
    pub amount: u128,
}

/// What all funders have paid in.
#[derive(Clone, Copy, Debug, PartialEq, Eq, Structural)]
pub struct TotalFundingAmountResponse {
    pub amount: u128,
}

/// Whether the funding is over.
#[derive(Clone, Copy, Debug, PartialEq, Eq, Structural)]
pub struct IsFundingFinishedResponse {
    pub status: bool,
}

/// The address of the channel token.
#[derive(Debug)]
pub struct TokenAddressResponse {
    pub address: String,
}

/// The address of the channel token's pool.
#[derive(Debug)]
pub struct PairAddressResponse {
    pub address: String,
}

} // verus!
