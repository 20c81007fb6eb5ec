//! The exchanges that can be streamed from.

use vstd::prelude::*;
use vstd::std_specs::cmp::PartialEqSpecImpl;

verus! {

/// Names an exchange server. There is one exchange for now.
#[derive(Clone, Copy, Debug, Eq, Hash)]
pub enum ExchangeId {
    /// Code: "KAL"
    Kalshi,
}

impl PartialEq for ExchangeId {
    fn eq(&self, other: &ExchangeId) -> (r: bool) {
        match (self, other) {
            (ExchangeId::Kalshi, ExchangeId::Kalshi) => true,
        }
    }
}

impl PartialEqSpecImpl for ExchangeId {
    open spec fn obeys_eq_spec() -> bool {
        true
    }

    open spec fn eq_spec(&self, other: &ExchangeId) -> bool {
        *self == *other
    }
}

impl ExchangeId {
    /// The three-letter code of this exchange.
    pub open spec fn code(self) -> Seq<char> {
        match self {
            ExchangeId::Kalshi => "KAL"@,
        }
    }

    /// The three-letter code of this exchange.
    pub fn as_str(&self) -> (s: &'static str)
        ensures
            s@ == self.code(),
    {
        match self {
            ExchangeId::Kalshi => "KAL",
        }
    }

    /// The text of this exchange: its code.
    pub fn to_string(&self) -> (s: String)
        ensures
            s@ == self.code(),
    {
        self.as_str().to_owned()
    }
}

/// Every code has three letters.
pub proof fn code_has_three_letters(id: ExchangeId)
    ensures
        id.code().len() == 3,
{
    reveal_strlit("KAL");
}

/// The code names the exchange: exchanges with the same code are the same.
pub proof fn code_names_one_exchange(first: ExchangeId, second: ExchangeId)
    requires
        first.code() == second.code(),
    ensures
        first == second,
{
}

} // verus!
