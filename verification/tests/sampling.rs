use tungstenite::Message;
use ws_socket::errors::WSError;
use ws_socket::json::parse_json;
use ws_socket::sampling::{Action, Event, Phase, SamplingLoop, Window};
use ws_socket::types::SocketType::{Binance, Coinbase, Okex};
use ws_socket::types::{PricesPairs, WebSocketConfig};

fn config(name: &str, url: &str, template: &str) -> WebSocketConfig {
    WebSocketConfig {
        name: name.to_string(),
        ws_base_url: url.to_string(),
        req_param: parse_json(template).unwrap(),
    }
}

fn ws_details() -> Vec<WebSocketConfig> {
    vec![
        config(
            "binance",
            "wss://stream.binance.com:9443",
            "{\"method\":\"SUBSCRIBE\",\"params\":[],\"id\":1}",
        ),
        config(
            "coinbase",
            "wss://ws-feed.exchange.coinbase.com",
            "{\"type\":\"subscribe\",\"channels\":[\"ticker\"],\"product_ids\":[]}",
        ),
        config("okx", "wss://ws.okx.com:8443/ws/v5/public", "{\"op\":\"subscribe\",\"args\":[]}"),
    ]
}

fn pairs() -> Vec<String> {
    vec!["btc_usdt".to_string(), "eth_usdt".to_string()]
}

fn text(frame: &str) -> Result<Message, tungstenite::Error> {
    Ok(Message::Text(frame.to_string()))
}

fn sampling() -> SamplingLoop {
    let (mut sampling, _) = SamplingLoop::new(ws_details(), pairs());
    for _ in 0..3 {
        sampling.step(Event::Connected(Ok(()))).unwrap();
        sampling.step(Event::Subscribed(Ok(()))).unwrap();
    }
    sampling
}

#[test]
fn the_exchanges_are_connected_and_subscribed_one_after_the_other() {
    let (mut sampling, first) = SamplingLoop::new(ws_details(), pairs());
    assert_eq!(sampling.state(), Phase::Connecting(Binance));
    match first {
        Action::Connect(Binance, address) => assert_eq!(
            address,
            "wss://stream.binance.com:9443/ws/btcusdt@ticker/ethusdt@ticker"
        ),
        other => panic!("{:?}", other),
    }

    match sampling.step(Event::Connected(Ok(()))).unwrap() {
        Action::Subscribe(Binance, payload) => assert_eq!(
            payload,
            "{\"method\":\"SUBSCRIBE\",\"params\":[\"BTCUSDT@ticker\",\"ETHUSDT@ticker\"],\"id\":1}"
        ),
        other => panic!("{:?}", other),
    }
    assert_eq!(sampling.state(), Phase::Subscribing(Binance));

    match sampling.step(Event::Subscribed(Ok(()))).unwrap() {
        Action::Connect(Coinbase, address) => {
            assert_eq!(address, "wss://ws-feed.exchange.coinbase.com")
        }
        other => panic!("{:?}", other),
    }
    assert_eq!(sampling.state(), Phase::Connecting(Coinbase));

    match sampling.step(Event::Connected(Ok(()))).unwrap() {
        Action::Subscribe(Coinbase, payload) => assert_eq!(
            payload,
            "{\"type\":\"subscribe\",\"channels\":[\"ticker\"],\"product_ids\":[\"BTC-USDT\",\"ETH-USDT\"]}"
        ),
        other => panic!("{:?}", other),
    }
    assert_eq!(sampling.state(), Phase::Subscribing(Coinbase));

    match sampling.step(Event::Subscribed(Ok(()))).unwrap() {
        Action::Connect(Okex, address) => assert_eq!(address, "wss://ws.okx.com:8443/ws/v5/public"),
        other => panic!("{:?}", other),
    }
    assert_eq!(sampling.state(), Phase::Connecting(Okex));

    match sampling.step(Event::Connected(Ok(()))).unwrap() {
        Action::Subscribe(Okex, payload) => assert_eq!(
            payload,
            "{\"op\":\"subscribe\",\"args\":[{\"channel\":\"tickers\",\"instId\":\"BTC-USDT\"},{\"channel\":\"tickers\",\"instId\":\"ETH-USDT\"}]}"
        ),
        other => panic!("{:?}", other),
    }
    assert_eq!(sampling.state(), Phase::Subscribing(Okex));

    assert!(matches!(sampling.step(Event::Subscribed(Ok(()))).unwrap(), Action::Listen));
    assert_eq!(sampling.state(), Phase::Sampling(Window::First));
}

#[test]
fn the_cache_follows_the_requested_pairs_from_the_start() {
    let (sampling, _) = SamplingLoop::new(ws_details(), pairs());
    let cache = sampling.snapshot();
    assert_eq!(cache.len(), 2);
    assert!(cache.get("BTCUSDT").unwrap().prices.is_empty());
    assert!(cache.get("ETHUSDT").unwrap().prices.is_empty());
}

#[test]
fn the_window_closes_at_the_second_tick() {
    let mut sampling = sampling();
    assert_eq!(sampling.state(), Phase::Sampling(Window::First));
    assert!(matches!(sampling.step(Event::Tick).unwrap(), Action::Listen));
    assert_eq!(sampling.state(), Phase::Sampling(Window::Second));
    assert!(matches!(sampling.step(Event::Tick).unwrap(), Action::Persist));
    assert_eq!(sampling.state(), Phase::Finalizing);
    assert!(matches!(sampling.step(Event::Persisted).unwrap(), Action::Stop));
    assert_eq!(sampling.state(), Phase::Terminated);
}

#[test]
fn frames_are_taken_in_both_parts_of_the_window() {
    let mut sampling = sampling();
    let first = text("{\"s\":\"BTCUSDT\",\"c\":\"28933.33\"}");
    assert!(matches!(sampling.step(Event::Frame(Binance, first)).unwrap(), Action::Listen));
    assert_eq!(sampling.state(), Phase::Sampling(Window::First));
    sampling.step(Event::Tick).unwrap();
    let second = text("{\"product_id\":\"btc-usdt\",\"price\":\"28934\"}");
    assert!(matches!(sampling.step(Event::Frame(Coinbase, second)).unwrap(), Action::Listen));
    let third = text("{\"data\":[{\"instId\":\"ETH-USDT\",\"last\":\"1800.5\"}]}");
    assert!(matches!(sampling.step(Event::Frame(Okex, third)).unwrap(), Action::Listen));
    let unknown = text("{\"s\":\"XRPUSDT\",\"c\":\"0.5\"}");
    assert!(matches!(sampling.step(Event::Frame(Binance, unknown)).unwrap(), Action::Listen));
    let quiet = text("{\"result\":null,\"id\":1}");
    assert!(matches!(sampling.step(Event::Frame(Binance, quiet)).unwrap(), Action::Listen));
    assert_eq!(sampling.state(), Phase::Sampling(Window::Second));
    assert!(matches!(sampling.step(Event::Tick).unwrap(), Action::Persist));

    let cache = sampling.snapshot();
    assert_eq!(cache.len(), 2);
    assert_eq!(
        cache.get("BTCUSDT").unwrap().prices,
        vec![
            PricesPairs { name: "binance".to_string(), price: "28933.33".to_string() },
            PricesPairs { name: "coinbase".to_string(), price: "28934".to_string() },
        ]
    );
    assert_eq!(
        cache.get("ETHUSDT").unwrap().prices,
        vec![PricesPairs { name: "okx".to_string(), price: "1800.5".to_string() }]
    );
}

#[test]
fn a_failure_while_connecting_ends_the_run() {
    let (mut sampling, _) = SamplingLoop::new(ws_details(), pairs());
    let failed = sampling.step(Event::Connected(Err(tungstenite::Error::ConnectionClosed)));
    assert!(matches!(failed, Err(WSError::TungsniteError(tungstenite::Error::ConnectionClosed))));
    assert_eq!(sampling.state(), Phase::Terminated);
    assert!(!sampling.accepts(&Event::Connected(Ok(()))));
}

#[test]
fn a_failure_while_subscribing_ends_the_run() {
    let (mut sampling, _) = SamplingLoop::new(ws_details(), pairs());
    sampling.step(Event::Connected(Ok(()))).unwrap();
    let failed = sampling.step(Event::Subscribed(Err(tungstenite::Error::AlreadyClosed)));
    assert!(matches!(failed, Err(WSError::TungsniteError(tungstenite::Error::AlreadyClosed))));
    assert_eq!(sampling.state(), Phase::Terminated);
}

#[test]
fn a_template_of_the_first_exchange_that_is_not_of_its_shape_ends_the_run() {
    let mut details = ws_details();
    details[0].req_param = parse_json("{\"method\":\"SUBSCRIBE\"}").unwrap();
    let (mut sampling, _) = SamplingLoop::new(details, pairs());
    let failed = sampling.step(Event::Connected(Ok(())));
    assert!(matches!(failed, Err(WSError::SerdeError(_))));
    assert_eq!(sampling.state(), Phase::Terminated);
}

#[test]
fn a_frame_that_cannot_be_taken_ends_the_run() {
    let frames: Vec<(Result<Message, tungstenite::Error>, fn(&WSError) -> bool)> = vec![
        (Err(tungstenite::Error::ConnectionClosed), |e| matches!(e, WSError::TungsniteError(_))),
        (Ok(Message::Binary(vec![1])), |e| matches!(e, WSError::UnknownResponse)),
        (text("{"), |e| matches!(e, WSError::SerdeError(_))),
        (text("{\"type\":\"error\"}"), |e| matches!(e, WSError::SocketResponseError(_))),
        (text("{\"product_id\":\"btc-usdt\",\"price\":\"x\"}"), |e| {
            matches!(e, WSError::ParseFloatError)
        }),
        (text("{\"product_id\":\"btcusdt\",\"price\":\"1\"}"), |e| {
            matches!(e, WSError::UnknownResponse)
        }),
        (text("{\"product_id\":\"btcusdt\",\"price\":\"x\"}"), |e| {
            matches!(e, WSError::ParseFloatError)
        }),
    ];
    for (frame, expected) in frames {
        let mut sampling = sampling();
        let failed = sampling.step(Event::Frame(Coinbase, frame)).unwrap_err();
        assert!(expected(&failed), "{:?}", failed);
        assert_eq!(sampling.state(), Phase::Terminated);
        let cache = sampling.snapshot();
        assert!(cache.get("BTCUSDT").unwrap().prices.is_empty());
        assert!(cache.get("ETHUSDT").unwrap().prices.is_empty());
    }
}

#[test]
fn each_phase_takes_its_own_events() {
    let (mut sampling, _) = SamplingLoop::new(ws_details(), pairs());
    assert!(sampling.accepts(&Event::Connected(Ok(()))));
    assert!(!sampling.accepts(&Event::Subscribed(Ok(()))));
    assert!(!sampling.accepts(&Event::Tick));
    assert!(!sampling.accepts(&Event::Frame(Binance, text("{}"))));
    assert!(!sampling.accepts(&Event::Persisted));
    sampling.step(Event::Connected(Ok(()))).unwrap();
    assert!(sampling.accepts(&Event::Subscribed(Ok(()))));
    assert!(!sampling.accepts(&Event::Connected(Ok(()))));
    assert!(!sampling.accepts(&Event::Tick));

    let mut sampling = self::sampling();
    assert!(sampling.accepts(&Event::Tick));
    assert!(sampling.accepts(&Event::Frame(Okex, text("{}"))));
    assert!(!sampling.accepts(&Event::Persisted));
    assert!(!sampling.accepts(&Event::Connected(Ok(()))));
    sampling.step(Event::Tick).unwrap();
    sampling.step(Event::Tick).unwrap();
    assert!(sampling.accepts(&Event::Persisted));
    assert!(!sampling.accepts(&Event::Tick));
    assert!(!sampling.accepts(&Event::Frame(Okex, text("{}"))));
    sampling.step(Event::Persisted).unwrap();
    assert!(!sampling.accepts(&Event::Persisted));
    assert!(!sampling.accepts(&Event::Tick));
}
