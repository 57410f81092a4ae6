use tungstenite::Message;
use ws_socket::cache::PriceCache;
use ws_socket::errors::{WSError, WSResult};
use ws_socket::helpers::{check_routable, handle_response, update_price_cache};
use ws_socket::insert_pairs;
use ws_socket::json::parse_json;
use ws_socket::parser::{
    message_parser, parse_binance_response, parse_coinbase_response, parse_document,
    parse_okex_response, parse_text,
};
use ws_socket::types::SocketType::{Binance, Coinbase, Okex};
use ws_socket::types::{
    BinanceResponse, CoinbaseResponse, OkexResponse, OkexResponseChild, PairsCache, PricesPairs,
    ResponseEnum, WebSocketConfig,
};

fn config(name: &str, url: &str, template: &str) -> WebSocketConfig {
    WebSocketConfig {
        name: name.to_string(),
        ws_base_url: url.to_string(),
        req_param: parse_json(template).unwrap(),
    }
}

fn ws_details() -> Vec<WebSocketConfig> {
    vec![
        config(
            "binance",
            "wss://stream.binance.com:9443",
            "{\"method\":\"SUBSCRIBE\",\"params\":[],\"id\":1}",
        ),
        config(
            "coinbase",
            "wss://ws-feed.exchange.coinbase.com",
            "{\"type\":\"subscribe\",\"channels\":[\"ticker\"],\"product_ids\":[]}",
        ),
        config("okx", "wss://ws.okx.com:8443/ws/v5/public", "{\"op\":\"subscribe\",\"args\":[]}"),
    ]
}

fn seeded(pairs: &[&str]) -> PriceCache {
    let mut cache = PriceCache::new();
    insert_pairs(pairs.iter().map(|p| p.to_string()).collect(), &mut cache);
    cache
}

fn observation(name: &str, price: &str) -> PricesPairs {
    PricesPairs { name: name.to_string(), price: price.to_string() }
}

fn number(price: &str) -> f64 {
    price.parse::<f64>().unwrap()
}

#[test]
/// check binance response
fn check_binance_response() -> WSResult<()> {
    let ws_details = ws_details();
    let pairs = vec!["btc_usdt".to_string()];

    let mut pairs_cache = PriceCache::new();

    insert_pairs(pairs, &mut pairs_cache);

    let binance_response = BinanceResponse {
        s: "BTCUSDT".to_string(),
        c: "28933.33".to_string(),
    };

    handle_response(
        &mut pairs_cache,
        &ws_details,
        ResponseEnum::Binance(binance_response),
    )?;

    let mut expect_response = PriceCache::new();
    expect_response.insert(
        "BTCUSDT".to_string(),
        PairsCache {
            prices: vec![PricesPairs {
                name: "binance".to_string(),
                price: "28933.33".to_string(),
            }],
        },
    );

    assert_eq!(expect_response, pairs_cache);
    let kept = &pairs_cache.get("BTCUSDT").unwrap().prices;
    assert_eq!(kept.len(), 1);
    assert_eq!(kept[0].name, "binance");
    assert_eq!(number(&kept[0].price), 28_933.33);

    Ok(())
}

#[test]
/// check coinbase response
fn check_coinbase_response() -> WSResult<()> {
    let ws_details = ws_details();
    let pairs = vec!["btc_usdt".to_string()];

    let mut pairs_cache = PriceCache::new();

    insert_pairs(pairs, &mut pairs_cache);

    let coinbase_response = CoinbaseResponse {
        price: "28933.33".to_string(),
        product_id: "btc-usdt".to_string(),
    };

    handle_response(
        &mut pairs_cache,
        &ws_details,
        ResponseEnum::Coinbase(coinbase_response),
    )?;

    let mut expect_response = PriceCache::new();
    expect_response.insert(
        "BTCUSDT".to_string(),
        PairsCache {
            prices: vec![PricesPairs {
                name: "coinbase".to_string(),
                price: "28933.33".to_string(),
            }],
        },
    );

    assert_eq!(expect_response, pairs_cache);
    let kept = &pairs_cache.get("BTCUSDT").unwrap().prices;
    assert_eq!(kept.len(), 1);
    assert_eq!(kept[0].name, "coinbase");
    assert_eq!(number(&kept[0].price), 28_933.33);

    Ok(())
}

#[test]
/// check okex response
fn check_okex_response() -> WSResult<()> {
    let ws_details = ws_details();
    let pairs = vec!["btc_usdt".to_string()];

    let mut pairs_cache = PriceCache::new();

    insert_pairs(pairs, &mut pairs_cache);

    let okex_response = OkexResponse {
        data: vec![OkexResponseChild {
            inst_id: "btc-usdt".to_string(),
            last: "28933.33".to_string(),
        }],
    };

    handle_response(
        &mut pairs_cache,
        &ws_details,
        ResponseEnum::Okex(okex_response),
    )?;

    let mut expect_response = PriceCache::new();
    expect_response.insert(
        "BTCUSDT".to_string(),
        PairsCache {
            prices: vec![PricesPairs {
                name: "okx".to_string(),
                price: "28933.33".to_string(),
            }],
        },
    );

    assert_eq!(expect_response, pairs_cache);
    let kept = &pairs_cache.get("BTCUSDT").unwrap().prices;
    assert_eq!(kept.len(), 1);
    assert_eq!(kept[0].name, "okx");
    assert_eq!(number(&kept[0].price), 28_933.33);

    Ok(())
}

#[test]
fn seeding_makes_one_empty_entry_for_each_key() {
    let cache = seeded(&["btc_usdt", "eth_usdt", "BTC_usdt"]);
    assert_eq!(cache.len(), 2);
    assert!(cache.contains_key("BTCUSDT"));
    assert!(cache.contains_key("ETHUSDT"));
    assert!(!cache.contains_key("btc_usdt"));
    assert!(cache.get("BTCUSDT").unwrap().prices.is_empty());
    assert_eq!(cache.entry(0).0, "BTCUSDT");
    assert_eq!(cache.entry(1).0, "ETHUSDT");
}

#[test]
fn seeding_again_empties_the_entry() {
    let mut cache = seeded(&["btc_usdt"]);
    update_price_cache(&mut cache, "BTCUSDT".into(), "binance".into(), "1".into());
    assert_eq!(cache.get("BTCUSDT").unwrap().prices.len(), 1);
    insert_pairs(vec!["btc_usdt".to_string()], &mut cache);
    assert_eq!(cache, seeded(&["btc_usdt"]));
}

#[test]
fn an_observation_of_a_pair_that_was_not_requested_is_dropped() {
    let ws_details = ws_details();
    let mut cache = seeded(&["btc_usdt"]);
    let response = BinanceResponse { s: "XRPUSDT".to_string(), c: "0.5".to_string() };
    handle_response(&mut cache, &ws_details, ResponseEnum::Binance(response)).unwrap();
    assert_eq!(cache, seeded(&["btc_usdt"]));

    let response = CoinbaseResponse { product_id: "xrp-usdt".to_string(), price: "0.5".to_string() };
    handle_response(&mut cache, &ws_details, ResponseEnum::Coinbase(response)).unwrap();
    assert_eq!(cache, seeded(&["btc_usdt"]));

    update_price_cache(&mut cache, "XRPUSDT".into(), "okx".into(), "0.5".into());
    assert_eq!(cache, seeded(&["btc_usdt"]));
    assert!(cache.get("XRPUSDT").is_none());
}

#[test]
fn the_first_exchange_is_looked_up_by_the_pair_as_it_came() {
    let ws_details = ws_details();
    let mut cache = seeded(&["btc_usdt"]);
    let response = BinanceResponse { s: "btcusdt".to_string(), c: "1".to_string() };
    handle_response(&mut cache, &ws_details, ResponseEnum::Binance(response)).unwrap();
    assert_eq!(cache, seeded(&["btc_usdt"]));
}

#[test]
fn observations_are_kept_in_the_order_of_arrival() {
    let ws_details = ws_details();
    let mut cache = seeded(&["btc_usdt", "eth_usdt"]);
    let first = BinanceResponse { s: "BTCUSDT".to_string(), c: "1.5".to_string() };
    let second = OkexResponse {
        data: vec![
            OkexResponseChild { inst_id: "BTC-USDT".to_string(), last: "2e3".to_string() },
            OkexResponseChild { inst_id: "ETH-USDT".to_string(), last: "9".to_string() },
        ],
    };
    let third = CoinbaseResponse { product_id: "ETH-USDT".to_string(), price: ".25".to_string() };
    handle_response(&mut cache, &ws_details, ResponseEnum::Binance(first)).unwrap();
    handle_response(&mut cache, &ws_details, ResponseEnum::Okex(second)).unwrap();
    handle_response(&mut cache, &ws_details, ResponseEnum::Coinbase(third)).unwrap();
    assert_eq!(
        cache.get("BTCUSDT").unwrap().prices,
        vec![observation("binance", "1.5"), observation("okx", "2e3")]
    );
    assert_eq!(cache.get("ETHUSDT").unwrap().prices, vec![observation("coinbase", ".25")]);
}

#[test]
fn a_frame_that_names_no_pair_changes_nothing() {
    let ws_details = ws_details();
    let mut cache = seeded(&["btc_usdt"]);
    let quiet = vec![
        ResponseEnum::Binance(BinanceResponse { s: String::new(), c: "not a price".to_string() }),
        ResponseEnum::Coinbase(CoinbaseResponse {
            product_id: String::new(),
            price: "not a price".to_string(),
        }),
        ResponseEnum::Okex(OkexResponse { data: Vec::new() }),
    ];
    for response in quiet {
        assert!(check_routable(&response));
        handle_response(&mut cache, &ws_details, response).unwrap();
        assert_eq!(cache, seeded(&["btc_usdt"]));
    }
}

#[test]
fn a_price_that_is_no_number_is_refused() {
    let ws_details = ws_details();
    for price in ["", "abc", "1,5", " 1", "1 ", "1.2.3", "--1", "0x10", "1e", "."] {
        let mut cache = seeded(&["btc_usdt"]);
        let response = BinanceResponse { s: "BTCUSDT".to_string(), c: price.to_string() };
        let refused = handle_response(&mut cache, &ws_details, ResponseEnum::Binance(response));
        assert!(matches!(refused, Err(WSError::ParseFloatError)), "{:?}", price);
        assert_eq!(cache, seeded(&["btc_usdt"]));

        let response = OkexResponse {
            data: vec![OkexResponseChild { inst_id: "btcusdt".to_string(), last: price.to_string() }],
        };
        let refused = handle_response(&mut cache, &ws_details, ResponseEnum::Okex(response));
        assert!(matches!(refused, Err(WSError::ParseFloatError)), "{:?}", price);
        assert_eq!(cache, seeded(&["btc_usdt"]));
    }
}

#[test]
fn a_pair_without_a_hyphen_cannot_be_routed() {
    let plain = ResponseEnum::Coinbase(CoinbaseResponse {
        product_id: "BTCUSDT".to_string(),
        price: "1".to_string(),
    });
    assert!(!check_routable(&plain));
    let plain = ResponseEnum::Okex(OkexResponse {
        data: vec![OkexResponseChild { inst_id: "BTCUSDT".to_string(), last: "1".to_string() }],
    });
    assert!(!check_routable(&plain));
    let hyphenated = ResponseEnum::Okex(OkexResponse {
        data: vec![OkexResponseChild { inst_id: "BTC-USDT".to_string(), last: "1".to_string() }],
    });
    assert!(check_routable(&hyphenated));
    let first = ResponseEnum::Binance(BinanceResponse { s: "BTCUSDT".to_string(), c: "1".to_string() });
    assert!(check_routable(&first));
}

#[test]
fn a_ticker_of_the_first_exchange_is_read_from_its_two_members() {
    let text = "{\"e\":\"24hrTicker\",\"E\":1680000000000,\"s\":\"BTCUSDT\",\"c\":\"28933.33\",\"o\":\"1\"}";
    match parse_text(Binance, text).unwrap() {
        ResponseEnum::Binance(ticker) => {
            assert_eq!(ticker.s, "BTCUSDT");
            assert_eq!(ticker.c, "28933.33");
        }
        other => panic!("{:?}", other),
    }
}

#[test]
fn a_ticker_of_the_second_exchange_is_read_from_its_two_members() {
    let text = "{\"type\":\"ticker\",\"sequence\":5,\"product_id\":\"BTC-USDT\",\"price\":\"28933.33\"}";
    match parse_text(Coinbase, text).unwrap() {
        ResponseEnum::Coinbase(ticker) => {
            assert_eq!(ticker.product_id, "BTC-USDT");
            assert_eq!(ticker.price, "28933.33");
        }
        other => panic!("{:?}", other),
    }
}

#[test]
fn the_tickers_of_the_third_exchange_are_read_from_the_data() {
    let text = "{\"arg\":{\"channel\":\"tickers\",\"instId\":\"BTC-USDT\"},\"data\":[{\"instId\":\"BTC-USDT\",\"last\":\"28933.33\",\"ts\":\"1\"},{\"instId\":\"ETH-USDT\",\"last\":\"1800\"}]}";
    match parse_text(Okex, text).unwrap() {
        ResponseEnum::Okex(tickers) => {
            assert_eq!(tickers.data.len(), 2);
            assert_eq!(tickers.data[0].inst_id, "BTC-USDT");
            assert_eq!(tickers.data[0].last, "28933.33");
            assert_eq!(tickers.data[1].inst_id, "ETH-USDT");
            assert_eq!(tickers.data[1].last, "1800");
        }
        other => panic!("{:?}", other),
    }
}

#[test]
fn a_document_that_is_no_ticker_names_no_pair() {
    for text in [
        "{}",
        "[]",
        "null",
        "17",
        "\"s\"",
        "{\"result\":null,\"id\":1}",
        "{\"s\":\"BTCUSDT\"}",
        "{\"c\":\"1\"}",
        "{\"s\":\"BTCUSDT\",\"c\":1}",
        "{\"s\":7,\"c\":\"1\"}",
        "[\"BTCUSDT\",\"1\"]",
    ] {
        match parse_text(Binance, text).unwrap() {
            ResponseEnum::Binance(ticker) => {
                assert_eq!(ticker.s, "", "{}", text);
                assert_eq!(ticker.c, "0.0", "{}", text);
            }
            other => panic!("{:?}", other),
        }
    }
    for text in ["{}", "{\"type\":\"subscriptions\",\"channels\":[]}", "{\"product_id\":\"BTC-USDT\",\"price\":1}"] {
        match parse_text(Coinbase, text).unwrap() {
            ResponseEnum::Coinbase(ticker) => {
                assert_eq!(ticker.product_id, "", "{}", text);
                assert_eq!(ticker.price, "0.0", "{}", text);
            }
            other => panic!("{:?}", other),
        }
    }
    for text in [
        "{}",
        "{\"event\":\"subscribe\",\"arg\":{\"channel\":\"tickers\"}}",
        "{\"data\":{}}",
        "{\"data\":[]}",
        "{\"data\":[{\"instId\":\"BTC-USDT\"}]}",
        "{\"data\":[{\"instId\":\"BTC-USDT\",\"last\":\"1\"},{\"instId\":\"ETH-USDT\",\"last\":2}]}",
    ] {
        match parse_text(Okex, text).unwrap() {
            ResponseEnum::Okex(tickers) => assert!(tickers.data.is_empty(), "{}", text),
            other => panic!("{:?}", other),
        }
    }
}

#[test]
fn an_error_that_the_exchange_reports_carries_the_payload() {
    let cases = [
        (Binance, "{\"result\":\"error\",\"s\":\"BTCUSDT\",\"c\":\"1\"}"),
        (Coinbase, "{\"type\":\"error\",\"message\":\"Failed to subscribe\"}"),
        (Okex, "{\"event\":\"error\",\"code\":\"60012\",\"msg\":\"Invalid request\"}"),
    ];
    for (exchange, text) in cases {
        match parse_text(exchange, text) {
            Err(WSError::SocketResponseError(payload)) => assert_eq!(payload, text),
            other => panic!("{:?}", other),
        }
        let document = parse_json(text).unwrap();
        match parse_document(exchange, &document, text) {
            Err(WSError::SocketResponseError(payload)) => assert_eq!(payload, text),
            other => panic!("{:?}", other),
        }
    }
}

#[test]
fn each_exchange_has_its_own_error_sign() {
    let text = "{\"result\":\"error\",\"type\":\"x\",\"event\":\"x\"}";
    let document = parse_json(text).unwrap();
    assert!(parse_binance_response(&document, text).is_err());
    assert!(parse_coinbase_response(&document, text).is_ok());
    assert!(parse_okex_response(&document, text).is_ok());

    let text = "{\"result\":\"x\",\"type\":\"error\",\"event\":\"x\"}";
    let document = parse_json(text).unwrap();
    assert!(parse_binance_response(&document, text).is_ok());
    assert!(parse_coinbase_response(&document, text).is_err());
    assert!(parse_okex_response(&document, text).is_ok());

    let text = "{\"result\":\"x\",\"type\":\"x\",\"event\":\"error\"}";
    let document = parse_json(text).unwrap();
    assert!(parse_binance_response(&document, text).is_ok());
    assert!(parse_coinbase_response(&document, text).is_ok());
    assert!(parse_okex_response(&document, text).is_err());

    let text = "{\"result\":\"Error\",\"type\":[\"error\"],\"event\":{\"error\":1}}";
    let document = parse_json(text).unwrap();
    assert!(parse_binance_response(&document, text).is_ok());
    assert!(parse_coinbase_response(&document, text).is_ok());
    assert!(parse_okex_response(&document, text).is_ok());
}

#[test]
fn a_text_that_is_no_json_is_refused() {
    for text in ["", "{", "{\"s\":}", "tick", "{\"s\":\"a\"} x", "{'s':'a'}"] {
        assert!(matches!(parse_text(Binance, text), Err(WSError::SerdeError(_))), "{:?}", text);
        assert!(matches!(
            message_parser(Okex, Ok(Message::Text(text.to_string()))),
            Err(WSError::SerdeError(_))
        ));
    }
}

#[test]
fn a_frame_that_is_no_text_is_refused() {
    let frames = vec![
        Message::Binary(b"{\"s\":\"BTCUSDT\",\"c\":\"1\"}".to_vec()),
        Message::Ping(Vec::new()),
        Message::Pong(vec![1, 2, 3]),
        Message::Close(None),
    ];
    for frame in frames {
        assert!(matches!(message_parser(Binance, Ok(frame)), Err(WSError::UnknownResponse)));
    }
}

#[test]
fn a_text_frame_is_decoded() {
    let frame = Message::Text("{\"product_id\":\"ETH-USDT\",\"price\":\"1800.5\"}".to_string());
    match message_parser(Coinbase, Ok(frame)).unwrap() {
        ResponseEnum::Coinbase(ticker) => {
            assert_eq!(ticker.product_id, "ETH-USDT");
            assert_eq!(ticker.price, "1800.5");
        }
        other => panic!("{:?}", other),
    }
}

#[test]
fn a_failure_of_the_transport_is_handed_on() {
    let failed = message_parser(Binance, Err(tungstenite::Error::AlreadyClosed));
    assert!(matches!(failed, Err(WSError::TungsniteError(tungstenite::Error::AlreadyClosed))));
    let failed = message_parser(Okex, Err(tungstenite::Error::ConnectionClosed));
    assert!(matches!(failed, Err(WSError::TungsniteError(tungstenite::Error::ConnectionClosed))));
}
