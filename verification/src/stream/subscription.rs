//! Subscriptions: which stream of which market on which exchange.

use std::fmt::Debug;
use vstd::prelude::*;
use vstd::std_specs::cmp::PartialEqSpec;
use vstd::std_specs::cmp::PartialEqSpecImpl;

pub mod lifecycle;

verus! {

/// The kind of a [`Subscription`], and the [`Self::Event`] that it yields.
///
/// A consumer of a `Subscription<_, _, C>` receives values of `C::Event` and
/// of no other type.
pub trait SubscriptionChannel where Self: Debug + Clone {
    type Event: Debug;
}

/// Binds an exchange, a market and a channel: the key of one logical stream.
///
/// Two subscriptions are equal when their three parts are, so a subscription
/// made anew for the same stream stands for the first.
#[derive(Debug, Eq, Hash)]
pub struct Subscription<Exchange, Market, Channel> {
    pub exchange: Exchange,
    pub market: Market,
    pub channel: Channel,
}

impl<Exchange, Market, Channel> Subscription<Exchange, Market, Channel> {
    /// Binds the three parts. This never fails.
    pub fn new(exchange: Exchange, market: Market, channel: Channel) -> (s: Self)
        ensures
            s.exchange == exchange,
            s.market == market,
            s.channel == channel,
    {
        Subscription { exchange, market, channel }
    }
}

impl<Exchange: Clone, Market: Clone, Channel: Clone> Clone for Subscription<
    Exchange,
    Market,
    Channel,
> {
    fn clone(&self) -> (s: Self)
        ensures
            cloned(self.exchange, s.exchange),
            cloned(self.market, s.market),
            cloned(self.channel, s.channel),
    {
        Subscription {
            exchange: self.exchange.clone(),
            market: self.market.clone(),
            channel: self.channel.clone(),
        }
    }
}

impl<Exchange: PartialEq, Market: PartialEq, Channel: PartialEq> PartialEq for Subscription<
    Exchange,
    Market,
    Channel,
> {
    fn eq(&self, other: &Self) -> (r: bool) {
        self.exchange == other.exchange && self.market == other.market && self.channel
            == other.channel
    }
}

impl<Exchange: PartialEq, Market: PartialEq, Channel: PartialEq> PartialEqSpecImpl for Subscription<
    Exchange,
    Market,
    Channel,
> {
    open spec fn obeys_eq_spec() -> bool {
        Exchange::obeys_eq_spec() && Market::obeys_eq_spec() && Channel::obeys_eq_spec()
    }

    open spec fn eq_spec(&self, other: &Self) -> bool {
        self.exchange.eq_spec(&other.exchange) && self.market.eq_spec(&other.market)
            && self.channel.eq_spec(&other.channel)
    }
}

/// Bindings with the same exchange, market and channel are the same binding:
/// either can be used where the other is.
pub proof fn bindings_of_one_stream_are_equal<Exchange, Market, Channel>(
    first: Subscription<Exchange, Market, Channel>,
    second: Subscription<Exchange, Market, Channel>,
)
    requires
        first.exchange == second.exchange,
        first.market == second.market,
        first.channel == second.channel,
    ensures
        first == second,
{
}

/// The streams that an exchange offers.
#[derive(Clone, Copy, Debug, Eq, Hash)]
pub enum SubChannel {
    /// The aggregated price levels of a market's order book: first a full
    /// snapshot, then deltas in order. The book is rebuilt by applying the
    /// deltas as they come; a gap or a delta out of order voids the local book,
    /// and a fresh snapshot has to be asked for.
    OrderbookDeltas,
    /// The last price of a market, sent when it changes. There is no snapshot.
    /// On a busy market the changes within one second may be merged into one
    /// message, so a message is the latest price as of its time, not a log of
    /// trades.
    Tickers,
    /// The trades executed on the subscribed markets, appended as they happen.
    /// There is no snapshot and no repair of gaps.
    Trades,
    /// The client's own fills, appended as they happen, as for
    /// [`SubChannel::Trades`].
    Fills,
    /// The lifecycle of a market. Every message is a whole snapshot, to be
    /// classified by itself.
    MarketLifecycles,
}

impl PartialEq for SubChannel {
    fn eq(&self, other: &SubChannel) -> (r: bool) {
        match (self, other) {
            (SubChannel::OrderbookDeltas, SubChannel::OrderbookDeltas) => true,
            (SubChannel::Tickers, SubChannel::Tickers) => true,
            (SubChannel::Trades, SubChannel::Trades) => true,
            (SubChannel::Fills, SubChannel::Fills) => true,
            (SubChannel::MarketLifecycles, SubChannel::MarketLifecycles) => true,
            _ => false,
        }
    }
}

impl PartialEqSpecImpl for SubChannel {
    open spec fn obeys_eq_spec() -> bool {
        true
    }

    open spec fn eq_spec(&self, other: &SubChannel) -> bool {
        *self == *other
    }
}

} // verus!
