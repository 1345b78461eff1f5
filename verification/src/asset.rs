use crate::pool::error::ContractError;
use vstd::prelude::*;
use vstd::std_specs::cmp::PartialEqSpecImpl;
use vstd::string::StrSliceExecFns;
use vstd::string::StringExecFns;

verus! {

/// Longest symbol, in characters, that goes into a liquidity token's name.
pub const TOKEN_SYMBOL_MAX_LENGTH: usize = 10;

/// What an asset is: a token issued by a contract, or a native denom.
#[derive(Debug)]
pub enum AssetInfo {
    /// A token kept by the contract at `contract_addr`.
    Token { contract_addr: String },
    /// A native coin named `denom`.
    NativeToken { denom: String },
}

/// The mathematical value of an [`AssetInfo`].
pub enum AssetInfoView {
    Token { contract_addr: Seq<char> },
    NativeToken { denom: Seq<char> },
}

impl View for AssetInfo {
    type V = AssetInfoView;

    open spec fn view(&self) -> AssetInfoView {
        match self {
            AssetInfo::Token { contract_addr } => AssetInfoView::Token {
                contract_addr: contract_addr@,
            },
            AssetInfo::NativeToken { denom } => AssetInfoView::NativeToken { denom: denom@ },
        }
    }
}

impl Clone for AssetInfo {
    fn clone(&self) -> (r: Self)
        ensures
            r == *self,
    {
        match self {
            AssetInfo::Token { contract_addr } => AssetInfo::Token {
                contract_addr: contract_addr.clone(),
            },
            AssetInfo::NativeToken { denom } => AssetInfo::NativeToken { denom: denom.clone() },
        }
    }
}

impl PartialEq for AssetInfo {
    /// Two asset infos are equal when they are of the same kind and name the
    /// same contract address or the same denom.
    fn eq(&self, other: &Self) -> (r: bool) {
        match self {
            AssetInfo::Token { contract_addr } => match other {
                AssetInfo::Token { contract_addr: other_addr } => *contract_addr == *other_addr,
                AssetInfo::NativeToken { .. } => false,
            },
            AssetInfo::NativeToken { denom } => match other {
                AssetInfo::Token { .. } => false,
                AssetInfo::NativeToken { denom: other_denom } => *denom == *other_denom,
            },
        }
    }
}

impl PartialEqSpecImpl for AssetInfo {
    open spec fn obeys_eq_spec() -> bool {
        true
    }

    open spec fn eq_spec(&self, other: &Self) -> bool {
        self@ == other@
    }
}

/// An amount of one asset.
#[derive(Debug)]
pub struct Asset {
    pub info: AssetInfo,
    pub amount: u128,
}

/// The mathematical value of an [`Asset`].
pub struct AssetView {
    pub info: AssetInfoView,
    pub amount: u128,
}

impl View for Asset {
    type V = AssetView;

    open spec fn view(&self) -> AssetView {
        AssetView { info: self.info@, amount: self.amount }
    }
}

impl Clone for Asset {
    fn clone(&self) -> (r: Self)
        ensures
            r == *self,
    {
        Asset { info: self.info.clone(), amount: self.amount }
    }
}

impl PartialEq for Asset {
    fn eq(&self, other: &Self) -> (r: bool) {
        self.info == other.info && self.amount == other.amount
    }
}

impl PartialEqSpecImpl for Asset {
    open spec fn obeys_eq_spec() -> bool {
        true
    }

    open spec fn eq_spec(&self, other: &Self) -> bool {
        self@ == other@
    }
}

/// Native funds attached to a message: an amount of one denom.
#[derive(Debug)]
pub struct Coin {
    pub denom: String,
    pub amount: u128,
}

/// The mathematical value of a [`Coin`].
pub struct CoinView {
    pub denom: Seq<char>,
    pub amount: u128,
}

impl View for Coin {
    type V = CoinView;

    open spec fn view(&self) -> CoinView {
        CoinView { denom: self.denom@, amount: self.amount }
    }
}

impl Clone for Coin {
    fn clone(&self) -> (r: Self)
        ensures
            r == *self,
    {
        Coin { denom: self.denom.clone(), amount: self.amount }
    }
}

/// The amount of the first coin of `denom` among `funds`, if there is one.
pub open spec fn sent_amount(funds: Seq<Coin>, denom: Seq<char>) -> Option<u128>
    decreases funds.len(),
{
    if funds.len() == 0 {
        None
    } else if funds[0].denom@ == denom {
        Some(funds[0].amount)
    } else {
        sent_amount(funds.drop_first(), denom)
    }
}

/// Finds the amount of `denom` attached to a message.
pub fn find_sent_amount(funds: &Vec<Coin>, denom: &String) -> (r: Option<u128>)
    ensures
        r == sent_amount(funds@, denom@),
{
    let mut i: usize = 0;
    assert(funds@.skip(0) == funds@);
    while i < funds.len()
        invariant
            i <= funds.len(),
            sent_amount(funds@, denom@) == sent_amount(funds@.skip(i as int), denom@),
        decreases funds.len() - i,
    {
        if funds[i].denom == *denom {
            return Some(funds[i].amount);
        }
        assert(funds@.skip(i as int).drop_first() == funds@.skip(i as int + 1));
        i += 1;
    }
    None
}

/// Whether a denom starts with `ibc/`.
pub open spec fn is_ibc_denom(denom: Seq<char>) -> bool {
    denom.len() >= 4 && denom[0] == 'i' && denom[1] == 'b' && denom[2] == 'c' && denom[3] == '/'
}

/// Tells whether a denom starts with `ibc/`.
pub fn has_ibc_prefix(denom: &str) -> (r: bool)
    ensures
        r == is_ibc_denom(denom@),
{
    denom.unicode_len() >= 4 && denom.get_char(0) == 'i' && denom.get_char(1) == 'b'
        && denom.get_char(2) == 'c' && denom.get_char(3) == '/'
}

/// The text that `str::to_lowercase` makes of a text.
pub uninterp spec fn lowercase_of(text: Seq<char>) -> Seq<char>;

/// Calls `str::to_lowercase`, which maps each character to its Unicode
/// lowercase. The contract only names the outcome.
#[verifier::external_body]
fn to_lowercase(text: &str) -> (r: String)
    ensures
        r@ == lowercase_of(text@),
{
    text.to_lowercase()
}

/// The text that `str::to_uppercase` makes of a text.
pub uninterp spec fn uppercase_of(text: Seq<char>) -> Seq<char>;

/// Calls `str::to_uppercase`, which maps each character to its Unicode
/// uppercase. The contract only names the outcome.
#[verifier::external_body]
fn to_uppercase(text: &str) -> (r: String)
    ensures
        r@ == uppercase_of(text@),
{
    text.to_uppercase()
}

/// A denom is accepted when it is an `ibc/` denom or its own lowercase.
pub open spec fn denom_accepted(denom: Seq<char>, lowered: Seq<char>) -> bool {
    is_ibc_denom(denom) || denom == lowered
}

/// Decides on a denom, given its lowercase form.
pub fn is_accepted_denom(denom: &String, lowered: &String) -> (r: bool)
    ensures
        r == denom_accepted(denom@, lowered@),
{
    has_ibc_prefix(denom.as_str()) || *denom == *lowered
}

impl AssetInfo {
    /// Whether an asset info is well formed. `address_ok` is the host's
    /// verdict on a token's contract address; a native denom is judged here.
    pub open spec fn is_valid(&self, address_ok: bool) -> bool {
        match self {
            AssetInfo::Token { .. } => address_ok,
            AssetInfo::NativeToken { denom } => denom_accepted(denom@, lowercase_of(denom@)),
        }
    }

    /// Rejects a token whose address the host refused and a native denom
    /// that is neither lowercase nor an `ibc/` denom.
    pub fn check_is_valid(&self, address_ok: bool) -> (r: Result<(), ContractError>)
        ensures
            self.is_valid(address_ok) ==> r == Ok::<(), ContractError>(()),
            !self.is_valid(address_ok) ==> r == Err::<(), ContractError>(
                ContractError::InvalidAsset,
            ),
    {
        match self {
            AssetInfo::Token { .. } => {
                if !address_ok {
                    return Err(ContractError::InvalidAsset);
                }
            },
            AssetInfo::NativeToken { denom } => {
                let lowered = to_lowercase(denom.as_str());
                if !is_accepted_denom(denom, &lowered) {
                    return Err(ContractError::InvalidAsset);
                }
            },
        }
        Ok(())
    }

    /// The symbol an asset goes by: a native asset's denom, a token's
    /// symbol as its contract reported it.
    pub open spec fn symbol(&self, token_symbol: Seq<char>) -> Seq<char> {
        match self {
            AssetInfo::Token { .. } => token_symbol,
            AssetInfo::NativeToken { denom } => denom@,
        }
    }
}

/// The first [`TOKEN_SYMBOL_MAX_LENGTH`] characters of a symbol.
pub open spec fn short_symbol(symbol: Seq<char>) -> Seq<char> {
    if symbol.len() <= TOKEN_SYMBOL_MAX_LENGTH {
        symbol
    } else {
        symbol.subrange(0, TOKEN_SYMBOL_MAX_LENGTH as int)
    }
}

/// Cuts a symbol down to its first [`TOKEN_SYMBOL_MAX_LENGTH`] characters.
pub fn shorten_symbol(symbol: &str) -> (r: String)
    ensures
        r@ == short_symbol(symbol@),
{
    let len = symbol.unicode_len();
    if len <= TOKEN_SYMBOL_MAX_LENGTH {
        symbol.to_owned()
    } else {
        symbol.substring_char(0, TOKEN_SYMBOL_MAX_LENGTH).to_owned()
    }
}

/// A liquidity token's name before it is put in upper case.
pub open spec fn lp_token_name_raw(first: Seq<char>, second: Seq<char>) -> Seq<char> {
    short_symbol(first) + "-"@ + short_symbol(second) + "-LP"@
}

/// Names the liquidity token of a pair `<SYM1>-<SYM2>-LP`, in upper case,
/// each symbol cut to [`TOKEN_SYMBOL_MAX_LENGTH`] characters.
/// `token_symbols[i]` is the symbol that the contract of asset `i` reported;
/// it is read only where asset `i` is a token.
pub fn format_lp_token_name(asset_infos: &[AssetInfo; 2], token_symbols: &[String; 2]) -> (r:
    String)
    ensures
        r@ == uppercase_of(
            lp_token_name_raw(
                asset_infos[0].symbol(token_symbols[0]@),
                asset_infos[1].symbol(token_symbols[1]@),
            ),
        ),
{
    let first = match &asset_infos[0] {
        AssetInfo::NativeToken { denom } => shorten_symbol(denom.as_str()),
        AssetInfo::Token { .. } => shorten_symbol(token_symbols[0].as_str()),
    };
    let second = match &asset_infos[1] {
        AssetInfo::NativeToken { denom } => shorten_symbol(denom.as_str()),
        AssetInfo::Token { .. } => shorten_symbol(token_symbols[1].as_str()),
    };
    let name = first.concat("-").concat(second.as_str()).concat("-LP");
    to_uppercase(name.as_str())
}

impl Asset {
    pub fn is_cw20_token(&self) -> (r: bool)
        ensures
            r == (self.info is Token),
    {
        match &self.info {
            AssetInfo::NativeToken { .. } => false,
            AssetInfo::Token { .. } => true,
        }
    }

    /// Whether the funds attached to a message back this asset: a token
    /// needs none, a native asset needs its first coin of the denom to hold
    /// exactly the amount, or no such coin and an amount of zero.
    pub open spec fn native_balance_sent(&self, funds: Seq<Coin>) -> bool {
        match self.info {
            AssetInfo::Token { .. } => true,
            AssetInfo::NativeToken { denom } => match sent_amount(funds, denom@) {
                Some(amount) => amount == self.amount,
                None => self.amount == 0,
            },
        }
    }

    /// Checks a native asset's amount against the attached funds.
    pub fn assert_sent_native_token_balance(&self, funds: &Vec<Coin>) -> (r: Result<
        (),
        ContractError,
    >)
        ensures
            self.native_balance_sent(funds@) ==> r == Ok::<(), ContractError>(()),
            !self.native_balance_sent(funds@) ==> r == Err::<(), ContractError>(
                ContractError::NativeTokenMismatch,
            ),
    {
        match &self.info {
            AssetInfo::NativeToken { denom } => match find_sent_amount(funds, denom) {
                Some(amount) => if self.amount == amount {
                    Ok(())
                } else {
                    Err(ContractError::NativeTokenMismatch)
                },
                None => if self.amount == 0 {
                    Ok(())
                } else {
                    Err(ContractError::NativeTokenMismatch)
                },
            },
            AssetInfo::Token { .. } => Ok(()),
        }
    }
}

} // verus!
