//! The protocol side: how an exchange and a market on it are named.

use std::borrow::Cow;
use vstd::prelude::*;
use vstd::std_specs::convert::FromSpecImpl;
use vstd::std_specs::convert::IntoSpec;

pub mod event;
pub mod series;

verus! {

/// A market on an exchange: the pair that names one prediction market.
pub struct PredictionMarket<MarketId> {
    pub exchange: Exchange,
    pub market: MarketId,
}

impl<MarketId> PredictionMarket<MarketId> {
    /// Pairs what `exchange` converts to with what `market` converts to.
    pub fn new<E, M>(exchange: E, market: M) -> (r: Self) where
        E: Into<Exchange>,
        M: Into<MarketId>,
        ensures
            call_ensures(E::into, (exchange,), r.exchange),
            call_ensures(M::into, (market,), r.market),
            E::obeys_into_spec() ==> r.exchange == exchange.into_spec(),
            M::obeys_into_spec() ==> r.market == market.into_spec(),
    {
        PredictionMarket { exchange: exchange.into(), market: market.into() }
    }
}

impl<E, M, MarketId> From<(E, M)> for PredictionMarket<MarketId> where
    E: Into<Exchange>,
    M: Into<MarketId>,
{
    fn from(pair: (E, M)) -> (r: Self)
        ensures
            call_ensures(E::into, (pair.0,), r.exchange),
            call_ensures(M::into, (pair.1,), r.market),
    {
        let (exchange, market) = pair;
        Self::new(exchange, market)
    }
}

impl<E, M, MarketId> FromSpecImpl<(E, M)> for PredictionMarket<MarketId> where
    E: Into<Exchange>,
    M: Into<MarketId>,
{
    open spec fn obeys_from_spec() -> bool {
        E::obeys_into_spec() && M::obeys_into_spec()
    }

    open spec fn from_spec(pair: (E, M)) -> Self {
        PredictionMarket { exchange: pair.0.into_spec(), market: pair.1.into_spec() }
    }
}

/// The name of one prediction market: a market as traded on an exchange.
pub struct PredictionMarketId(pub String);

impl View for PredictionMarketId {
    type V = Seq<char>;

    open spec fn view(&self) -> Seq<char> {
        self.0@
    }
}

impl PredictionMarketId {
    /// The text of this name: the name itself.
    pub fn to_string(&self) -> (text: String)
        ensures
            text@ == self@,
    {
        self.0.clone()
    }
}

/// The name of an exchange, such as "kalshi".
pub struct Exchange(Cow<'static, str>);

impl View for Exchange {
    type V = Seq<char>;

    closed spec fn view(&self) -> Seq<char> {
        self.0@
    }
}

impl Exchange {
    /// The text of this exchange: its name.
    pub fn to_string(&self) -> (text: String)
        ensures
            text@ == self@,
    {
        match &self.0 {
            Cow::Borrowed(name) => (*name).to_owned(),
            Cow::Owned(name) => name.clone(),
        }
    }
}

impl<E> From<E> for Exchange where E: Into<Cow<'static, str>> {
    fn from(exchange: E) -> (r: Self)
        ensures
            exists|name: Cow<'static, str>| #[trigger]
                call_ensures(E::into, (exchange,), name) && r@ == name@,
            E::obeys_into_spec() ==> r@ == exchange.into_spec()@,
    {
        Exchange(exchange.into())
    }
}

impl<E> FromSpecImpl<E> for Exchange where E: Into<Cow<'static, str>> {
    open spec fn obeys_from_spec() -> bool {
        E::obeys_into_spec()
    }

    closed spec fn from_spec(exchange: E) -> Exchange {
        Exchange(exchange.into_spec())
    }
}

} // verus!
