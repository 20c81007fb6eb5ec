//! Markets: single tradable contracts.

use crate::data::event::Event;
use crate::data::event::EventView;
use vstd::prelude::*;

verus! {

/// The kind of a market, which decides how it pays out.
#[derive(Clone, Copy, Debug, PartialEq, Eq, Structural, Hash)]
pub enum MarketType {
    /// A market with the two sides YES and NO. When its payout criterion is
    /// met it pays the notional value to the holders of YES, otherwise to the
    /// holders of NO.
    Binary,
    /// A market with the two sides LONG and SHORT. At settlement the notional
    /// value of each contract is split between the two as its rules say.
    Scalar,
}

impl MarketType {
    /// The token that stands for this kind in text.
    pub open spec fn token(self) -> Seq<char> {
        match self {
            MarketType::Binary => "binary"@,
            MarketType::Scalar => "scalar"@,
        }
    }

    /// The token that stands for this kind in text.
    pub fn as_str(&self) -> (token: &'static str)
        ensures
            token@ == self.token(),
    {
        match self {
            MarketType::Binary => "binary",
            MarketType::Scalar => "scalar",
        }
    }

    /// The text of this kind: its token.
    pub fn to_string(&self) -> (text: String)
        ensures
            text@ == self.token(),
    {
        self.as_str().to_owned()
    }
}

impl Default for MarketType {
    fn default() -> (kind: Self)
        ensures
            kind == MarketType::Binary,
    {
        MarketType::Binary
    }
}

/// The token names the kind: kinds with the same token are the same, so a
/// kind can be read back from its text.
pub proof fn token_names_one_kind(first: MarketType, second: MarketType)
    requires
        first.token() == second.token(),
    ensures
        first == second,
{
    reveal_strlit("binary");
    reveal_strlit("scalar");
    if first != second {
        assert("binary"@[0] != "scalar"@[0]);
    }
}

/// A single tradable contract on an event.
pub struct Market<'a> {
    /// The ticker that identifies this market.
    ticker: String,
    /// The kind of this market.
    market_type: MarketType,
    /// The event that this market is made on. The market looks things up in
    /// its event and does not own it.
    event: &'a Event<'a>,
}

/// A [`Market`] as a mathematical value.
pub struct MarketView {
    pub ticker: Seq<char>,
    pub market_type: MarketType,
    pub event: EventView,
}

impl<'a> View for Market<'a> {
    type V = MarketView;

    closed spec fn view(&self) -> MarketView {
        MarketView { ticker: self.ticker@, market_type: self.market_type, event: self.event@ }
    }
}

impl<'a> Market<'a> {
    pub fn new(ticker: &str, market_type: MarketType, event: &'a Event<'a>) -> (market: Self)
        ensures
            market@ == (MarketView { ticker: ticker@, market_type, event: event@ }),
    {
        Market { ticker: ticker.to_owned(), market_type, event }
    }
}

} // verus!
