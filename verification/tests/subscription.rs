use predictors::stream::exchange::ExchangeId;
use predictors::stream::subscription::lifecycle::Lifecycle;
use predictors::stream::subscription::lifecycle::MarketLifecycles;
use predictors::stream::subscription::SubChannel;
use predictors::stream::subscription::Subscription;
use predictors::stream::subscription::SubscriptionChannel;
use predictors::stream::time::Timestamp;
use std::collections::HashSet;

fn classify_first<C: SubscriptionChannel<Event = Lifecycle>>(
    _subscription: &Subscription<ExchangeId, String, C>,
    events: Vec<C::Event>,
) -> Option<C::Event> {
    events.into_iter().next()
}

#[test]
fn exchange_code() {
    assert_eq!(ExchangeId::Kalshi.as_str(), "KAL");
    assert_eq!(ExchangeId::Kalshi.as_str().len(), 3);
    assert_eq!(ExchangeId::Kalshi.to_string(), String::from("KAL"));
    assert_eq!(ExchangeId::Kalshi, ExchangeId::Kalshi);
}

#[test]
fn binding_keeps_its_parts() {
    let binding = Subscription::new(ExchangeId::Kalshi, String::from("MKT-1"), MarketLifecycles);
    assert_eq!(binding.exchange, ExchangeId::Kalshi);
    assert_eq!(binding.market, "MKT-1");
    assert_eq!(binding.channel, MarketLifecycles);
}

#[test]
fn bindings_of_one_stream_are_interchangeable() {
    let first = Subscription::new(ExchangeId::Kalshi, String::from("MKT-1"), MarketLifecycles);
    let second = Subscription {
        exchange: ExchangeId::Kalshi,
        market: String::from("MKT-1"),
        channel: MarketLifecycles,
    };
    let other = Subscription::new(ExchangeId::Kalshi, String::from("MKT-2"), MarketLifecycles);
    assert_eq!(first, second);
    assert_ne!(first, other);
    assert_eq!(first.clone(), first);

    let mut seen = HashSet::new();
    assert!(seen.insert(first));
    assert!(!seen.insert(second));
    assert!(seen.insert(other));
    assert_eq!(seen.len(), 2);
}

#[test]
fn bindings_differ_by_channel() {
    let trades = Subscription::new(ExchangeId::Kalshi, 7u64, SubChannel::Trades);
    let fills = Subscription::new(ExchangeId::Kalshi, 7u64, SubChannel::Fills);
    assert_ne!(trades, fills);
    assert_eq!(trades, Subscription::new(ExchangeId::Kalshi, 7u64, SubChannel::Trades));
}

#[test]
fn catalog_has_five_distinct_channels() {
    let all = [
        SubChannel::OrderbookDeltas,
        SubChannel::Tickers,
        SubChannel::Trades,
        SubChannel::Fills,
        SubChannel::MarketLifecycles,
    ];
    for (i, a) in all.iter().enumerate() {
        for (j, b) in all.iter().enumerate() {
            assert_eq!(a == b, i == j);
        }
    }
    let distinct: HashSet<SubChannel> = all.into_iter().collect();
    assert_eq!(distinct.len(), 5);
}

#[test]
fn lifecycle_channel_yields_lifecycles() {
    let binding = Subscription::new(ExchangeId::Kalshi, String::from("MKT-1"), MarketLifecycles);
    let snapshot = Lifecycle {
        open_ts: Timestamp::new(1, 0),
        close_ts: Timestamp::new(2, 0),
        determination_ts: None,
        settled_ts: None,
        result: None,
        is_deactivated: false,
    };
    let event = classify_first(&binding, vec![snapshot]).unwrap();
    assert_eq!(event.close_ts, Timestamp::new(2, 0));
    assert_eq!(format!("{:?}", binding.channel), "MarketLifecycles");
}
