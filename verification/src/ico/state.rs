use vstd::prelude::*;

verus! {

/// The state of a fundraising.
#[derive(Debug)]
pub struct Config {
    pub admin: String,
    /// The code from which the channel token is instantiated.
    pub token_code_id: u64,
    pub token_name: String,
    pub token_symbol: String,
    pub target_funding_amount: u128,
    pub current_funding_amount: u128,
    /// The amount of the channel token that goes into circulation.
    pub channel_token_amount: u128,
    /// The block height at which the funding ends.
    pub deadline: u64,
    pub finished: bool,
    pub token_contract: String,
    pub pair_contract: String,
    /// Who receives the funds.
    pub recipient: String,
    /// Whether the token was handed out after the funding.
    pub is_token_distributed: bool,
}

/// The mathematical value of a [`Config`].
pub struct ConfigView {
    pub admin: Seq<char>,
    pub token_code_id: u64,
    pub token_name: Seq<char>,
    pub token_symbol: Seq<char>,
    pub target_funding_amount: u128,
    pub current_funding_amount: u128,
    pub channel_token_amount: u128,
    pub deadline: u64,
    pub finished: bool,
    pub token_contract: Seq<char>,
    pub pair_contract: Seq<char>,
    pub recipient: Seq<char>,
    pub is_token_distributed: bool,
}

impl View for Config {
    type V = ConfigView;

    open spec fn view(&self) -> ConfigView {
        ConfigView {
            admin: self.admin@,
            token_code_id: self.token_code_id,
            token_name: self.token_name@,
            token_symbol: self.token_symbol@,
            target_funding_amount: self.target_funding_amount,
            current_funding_amount: self.current_funding_amount,
            channel_token_amount: self.channel_token_amount,
            deadline: self.deadline,
            finished: self.finished,
            token_contract: self.token_contract@,
            pair_contract: self.pair_contract@,
            recipient: self.recipient@,
            is_token_distributed: self.is_token_distributed,
        }
    }
}

impl Clone for Config {
    fn clone(&self) -> (r: Self)
        ensures
            r@ == self@,
    {
        Config {
            admin: self.admin.clone(),
            token_code_id: self.token_code_id,
            token_name: self.token_name.clone(),
            token_symbol: self.token_symbol.clone(),
            target_funding_amount: self.target_funding_amount,
            current_funding_amount: self.current_funding_amount,
            channel_token_amount: self.channel_token_amount,
            deadline: self.deadline,
            finished: self.finished,
            token_contract: self.token_contract.clone(),
            pair_contract: self.pair_contract.clone(),
            recipient: self.recipient.clone(),
            is_token_distributed: self.is_token_distributed,
        }
    }
}

impl Config {
    pub fn is_finished(&self) -> (r: bool)
        ensures
            r == self.finished,
    {
        self.finished
    }
}

/// What one funder has paid in so far.
#[derive(Debug)]
pub struct Funding {
    pub addr: String,
    pub amount: u128,
}

/// The mathematical value of a [`Funding`].
pub struct FundingView {
    pub addr: Seq<char>,
    pub amount: u128,
}

impl View for Funding {
    type V = FundingView;

    open spec fn view(&self) -> FundingView {
        FundingView { addr: self.addr@, amount: self.amount }
    }
}

} // verus!
