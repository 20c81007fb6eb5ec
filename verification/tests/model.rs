use predictors::data;
use predictors::protocol;
use predictors::protocol::Exchange;
use predictors::protocol::PredictionMarket;
use predictors::protocol::PredictionMarketId;
use predictors::stream::model::event::Event;
use predictors::stream::model::market::Market;
use predictors::stream::model::market::MarketType;
use predictors::stream::model::series::Series;

#[test]
fn stream_series() {
    let series = Series::new(String::from("INX"), String::from("daily"));
    assert_eq!(series.ticker, "INX");
    assert_eq!(series.frequency, "daily");
    assert_eq!(series.to_string(), "INX");
    assert_eq!(series.to_debug_string(), "[daily] INX");
}

#[test]
fn stream_event() {
    let series = Series::new(String::from("INX"), String::from("daily"));
    let event = Event::new("INX-24JUL14", true, &series);
    assert_eq!(event.ticker, "INX-24JUL14");
    assert!(event.mutually_exclusive);
    assert_eq!(event.series_frequency(), "daily");
    assert_eq!(event.to_string(), "INX-24JUL14, true");
    let open_ended = Event::new("INX-24JUL15", false, &series);
    assert_eq!(open_ended.to_string(), "INX-24JUL15, false");
}

#[test]
fn stream_market() {
    let series = Series::new(String::from("INX"), String::from("weekly"));
    let event = Event::new("INX-24JUL14", true, &series);
    let market = Market::new("INX-24JUL14-T5000", MarketType::Scalar, &event);
    assert_eq!(market.ticker, "INX-24JUL14-T5000");
    assert_eq!(market.market_type, MarketType::Scalar);
    assert_eq!(*market.event_exclusivity(), true);
    assert_eq!(market.event.series_frequency(), "weekly");
    assert_eq!(market.to_string(), "INX-24JUL14-T5000, SCALAR");

    let loose = Event::new("E", false, &series);
    let market = Market::new("M", MarketType::default(), &loose);
    assert_eq!(*market.event_exclusivity(), false);
    assert_eq!(market.to_string(), "M, BINARY");
}

#[test]
fn stream_market_type_tokens() {
    assert_eq!(MarketType::default(), MarketType::Binary);
    assert_eq!(MarketType::Binary.as_str(), "BINARY");
    assert_eq!(MarketType::Scalar.as_str(), "SCALAR");
    assert_eq!(MarketType::Scalar.to_string(), "SCALAR");
    assert_ne!(MarketType::Binary.as_str(), MarketType::Scalar.as_str());
}

#[test]
fn data_market_type_tokens() {
    assert_eq!(data::market::MarketType::default(), data::market::MarketType::Binary);
    assert_eq!(data::market::MarketType::Binary.as_str(), "binary");
    assert_eq!(data::market::MarketType::Scalar.as_str(), "scalar");
    assert_eq!(data::market::MarketType::Binary.to_string(), "binary");
}

#[test]
fn data_series_and_event() {
    let series = data::series::Series::new(String::from("INX"), String::from("one-off"));
    assert_eq!(series.to_string(), "INX");
    assert_eq!(series.to_debug_string(), "[one-off] INX");
    let event = data::event::Event::new("INX-24JUL14", true, &series);
    assert_eq!(event.to_string(), "INX-24JUL14");
    assert_eq!(event.to_debug_string(), "MECENT INX-24JUL14");
    let _market =
        data::market::Market::new("INX-24JUL14-T5000", data::market::MarketType::Binary, &event);
}

#[test]
fn protocol_series_and_event() {
    let series = protocol::series::Series::new(String::from("INX"), String::from("daily"));
    assert_eq!(series.to_string(), "INX, daily");
    let event = protocol::event::Event::new("INX-24JUL14", false, series);
    assert_eq!(event.ticker, "INX-24JUL14");
    assert!(!event.mutually_exclusive);
    assert_eq!(event.series_frequency(), "daily");
    assert_eq!(event.series.ticker, "INX");
    assert_eq!(event.to_string(), "INX-24JUL14, false");
}

#[test]
fn exchange_from_borrowed_and_owned_text() {
    assert_eq!(Exchange::from("kalshi").to_string(), "kalshi");
    assert_eq!(Exchange::from(String::from("kalshi")).to_string(), "kalshi");
    assert_eq!(Exchange::from(std::borrow::Cow::Borrowed("kalshi")).to_string(), "kalshi");
}

#[test]
fn prediction_market_converts_both_parts() {
    let market: PredictionMarket<String> = PredictionMarket::new("kalshi", "INX-24JUL14-T5000");
    assert_eq!(market.exchange.to_string(), "kalshi");
    assert_eq!(market.market, "INX-24JUL14-T5000");

    let market: PredictionMarket<u64> = PredictionMarket::from((String::from("kalshi"), 7u32));
    assert_eq!(market.exchange.to_string(), "kalshi");
    assert_eq!(market.market, 7u64);

    let id = PredictionMarketId(String::from("kalshi:INX"));
    assert_eq!(id.to_string(), "kalshi:INX");
    let market: PredictionMarket<PredictionMarketId> = PredictionMarket::new("kalshi", id);
    assert_eq!(market.market.0, "kalshi:INX");
}
