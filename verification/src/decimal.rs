use vstd::prelude::*;
use vstd::string::StrSliceExecFns;

verus! {

/// A text of this many characters or more is not read as a decimal: 2^30.
pub const DECIMAL_TEXT_LIMIT: usize = 1_073_741_824;

/// Number of atomic units in the value one: 10^18.
pub const DECIMAL_FRACTIONAL: u128 = 1_000_000_000_000_000_000;

/// A fixed-point number with 18 fractional digits, held as its count of
/// atomic units: `Decimal { atomics: 1_500_000_000_000_000_000 }` is 1.5.
#[derive(Clone, Copy, Debug, PartialEq, Eq, Structural)]
pub struct Decimal {
    pub atomics: u128,
}

/// The atomic units that `cosmwasm_std::Decimal`'s parser reads from a text,
/// or `None` where it rejects the text.
pub uninterp spec fn decimal_atomics_of(text: Seq<char>) -> Option<u128>;

/// Parses a decimal with `<cosmwasm_std::Decimal as FromStr>::from_str` and
/// takes the atomic units of what it returns. The contract only names the
/// outcome: the same text always reads as the same number. The parser
/// counts the bytes of the fraction in 32 bits and can panic once that
/// count wraps; a text below [`DECIMAL_TEXT_LIMIT`] characters holds fewer
/// than 2^32 bytes, so longer ones are kept from it.
#[verifier::external_body]
fn parse_atomics(input: &str) -> (r: Option<u128>)
    requires
        input@.len() < DECIMAL_TEXT_LIMIT,
    ensures
        r == decimal_atomics_of(input@),
{
    match <cosmwasm_std::Decimal as core::str::FromStr>::from_str(input) {
        Ok(d) => Some(d.atomics().u128()),
        Err(_) => None,
    }
}

impl Decimal {
    /// The decimal with the given number of atomic units.
    pub fn new(atomics: u128) -> (r: Decimal)
        ensures
            r.atomics == atomics,
    {
        Decimal { atomics }
    }

    /// The decimal zero.
    pub fn zero() -> (r: Decimal)
        ensures
            r.atomics == 0,
    {
        Decimal { atomics: 0 }
    }

    /// The number of atomic units.
    pub fn atomics(&self) -> (r: u128)
        ensures
            r == self.atomics,
    {
        self.atomics
    }

    /// Whether this is zero.
    pub fn is_zero(&self) -> (r: bool)
        ensures
            r == (self.atomics == 0),
    {
        self.atomics == 0
    }

    /// What a text reads as: nothing where it has [`DECIMAL_TEXT_LIMIT`]
    /// characters or more, else what the parser makes of it.
    pub open spec fn parsed(text: Seq<char>) -> Option<Decimal> {
        if text.len() >= DECIMAL_TEXT_LIMIT {
            None
        } else {
            Self::from_parsed(decimal_atomics_of(text))
        }
    }

    /// Reads a decimal such as `"1.23"`, `"1"` or `"000012"`. A text of
    /// [`DECIMAL_TEXT_LIMIT`] characters or more is refused unread.
    pub fn from_str(input: &str) -> (r: Option<Decimal>)
        ensures
            r == Self::parsed(input@),
    {
        if input.unicode_len() >= DECIMAL_TEXT_LIMIT {
            return None;
        }
        Self::of_atomics(parse_atomics(input))
    }

    /// What `from_str` makes of a parser's outcome.
    pub open spec fn from_parsed(parsed: Option<u128>) -> Option<Decimal> {
        match parsed {
            Some(atomics) => Some(Decimal { atomics }),
            None => None,
        }
    }

    /// Wraps the atomic units a parser produced.
    pub fn of_atomics(parsed: Option<u128>) -> (r: Option<Decimal>)
        ensures
            r == Self::from_parsed(parsed),
    {
        match parsed {
            Some(atomics) => Some(Decimal { atomics }),
            None => None,
        }
    }
}

} // verus!
