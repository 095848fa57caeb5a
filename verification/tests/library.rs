use bybit_trader::contracts::{ContractMap, SymbolInfo, PRICE_WINDOW};
use bybit_trader::instruments::{currency_pairs_from_response, InstrumentEntry};
use bybit_trader::news::{plan_news_trade, BUY_ORDER_COUNT, SELL_ORDER_COUNT};
use bybit_trader::orders::{
    buy_order_body, buy_order_request, instruments_url, keep_alive_body, keep_alive_request,
    order_url, sell_order_body, sell_order_request,
};
use bybit_trader::signing::{decimal_string, sign_request, HEADER_API_KEY, HEADER_SIGN, HEADER_TIMESTAMP};
use bybit_trader::state::BybitState;
use bybit_trader::stream::{ping_message, subscribe_message, subscribe_messages};
use bybit_trader::text::str_ends_with;
use bybit_trader::ticker::{read_ticker_update, TickerUpdate};

fn entry(symbol: &str, qty: f64) -> InstrumentEntry<f64> {
    InstrumentEntry { symbol: symbol.to_string(), max_order_qty: qty }
}

fn state_with(symbols: &[(&str, f64)]) -> BybitState<f64> {
    let list: Vec<InstrumentEntry<f64>> = symbols.iter().map(|(s, q)| entry(s, *q)).collect();
    let map = match currency_pairs_from_response(0, "OK".to_string(), list, 0.0) {
        Ok(m) => m,
        Err(_) => panic!("a zero return code is accepted"),
    };
    let mut state = BybitState::new();
    state.update_bybit(map);
    state
}

#[test]
fn pairs_keep_only_usdt_contracts() {
    let list = vec![entry("BTCUSDT", 100.0), entry("BTCPERP", 5.0), entry("ETHUSDC", 7.0), entry("DOGEUSDT", 1.0e6)];
    let map = currency_pairs_from_response(0, "OK".to_string(), list, 0.0).ok().unwrap();
    let mut names = map.symbols();
    names.sort();
    assert_eq!(names, vec!["BTCUSDT".to_string(), "DOGEUSDT".to_string()]);
    let btc = map.get("BTCUSDT").unwrap();
    assert_eq!(btc.max_order_qty, 100.0);
    assert_eq!(btc.adjusted_prices, vec![0.0]);
    assert_eq!(btc.num_contracts, vec![0.0]);
    assert!(map.get("BTCPERP").is_none());
}

#[test]
fn pairs_later_duplicate_wins() {
    let list = vec![entry("XUSDT", 1.0), entry("XUSDT", 2.0)];
    let map = currency_pairs_from_response(0, "OK".to_string(), list, 0.0).ok().unwrap();
    assert_eq!(map.symbols().len(), 1);
    assert_eq!(map.get("XUSDT").unwrap().max_order_qty, 2.0);
}

#[test]
fn pairs_refused_on_nonzero_code() {
    let list = vec![entry("BTCUSDT", 100.0)];
    match currency_pairs_from_response(10001, "params error".to_string(), list, 0.0) {
        Err(msg) => assert_eq!(msg, "params error"),
        Ok(_) => panic!("a nonzero return code must be refused"),
    }
}

#[test]
fn pairs_symbol_must_end_with_usdt() {
    let list = vec![entry("USDTBTC", 1.0), entry("USDT", 2.0), entry("usdt", 3.0)];
    let map = currency_pairs_from_response(0, String::new(), list, 0.0).ok().unwrap();
    assert_eq!(map.symbols(), vec!["USDT".to_string()]);
}

#[test]
fn ends_with_cases() {
    assert!(str_ends_with("BTCUSDT", "USDT"));
    assert!(!str_ends_with("SDT", "USDT"));
    assert!(str_ends_with("anything", ""));
    assert!(!str_ends_with("BTCUSDC", "USDT"));
}

#[test]
fn new_state_knows_nothing() {
    let state: BybitState<f64> = BybitState::new();
    assert!(state.get_all_contracts().symbols().is_empty());
    assert_eq!(state.get_specific_contract_details("BTCUSDT"), None);
}

#[test]
fn details_after_update_are_the_recorded_values() {
    let mut state = state_with(&[("BTCUSDT", 100.0)]);
    assert_eq!(state.get_specific_contract_details("BTCUSDT"), Some((0.0, 0.0)));
    assert!(state.update_contract_details("BTCUSDT", 65000.5, 0.2));
    assert_eq!(state.get_specific_contract_details("BTCUSDT"), Some((65000.5, 0.2)));
}

#[test]
fn update_of_unknown_symbol_changes_nothing() {
    let mut state = state_with(&[("BTCUSDT", 100.0)]);
    assert!(!state.update_contract_details("ETHUSDT", 3000.0, 4.0));
    assert_eq!(state.get_specific_contract_details("ETHUSDT"), None);
    let all = state.get_all_contracts();
    assert_eq!(all.symbols(), vec!["BTCUSDT".to_string()]);
    assert_eq!(all.get("BTCUSDT").unwrap().adjusted_prices, vec![0.0]);
}

#[test]
fn windows_keep_the_last_four_values() {
    let mut state = state_with(&[("BTCUSDT", 100.0)]);
    for i in 1..=6 {
        state.update_contract_details("BTCUSDT", i as f64, (10 * i) as f64);
    }
    let all = state.get_all_contracts();
    let info = all.get("BTCUSDT").unwrap();
    assert_eq!(info.adjusted_prices, vec![3.0, 4.0, 5.0, 6.0]);
    assert_eq!(info.num_contracts, vec![30.0, 40.0, 50.0, 60.0]);
    assert_eq!(info.adjusted_prices.len(), PRICE_WINDOW);
}

#[test]
fn update_touches_one_contract() {
    let mut state = state_with(&[("BTCUSDT", 100.0), ("ETHUSDT", 50.0)]);
    state.update_contract_details("BTCUSDT", 1.0, 2.0);
    assert_eq!(state.get_specific_contract_details("ETHUSDT"), Some((0.0, 0.0)));
    assert_eq!(state.max_order_qty("ETHUSDT"), Some(50.0));
    assert_eq!(state.max_order_qty("XRPUSDT"), None);
}

#[test]
fn empty_window_gives_no_details() {
    let mut map: ContractMap<f64> = ContractMap::new();
    map.insert("ABCUSDT".to_string(), SymbolInfo { max_order_qty: 1.0, adjusted_prices: vec![], num_contracts: vec![2.0] });
    let mut state = BybitState::new();
    state.update_bybit(map);
    assert_eq!(state.get_specific_contract_details("ABCUSDT"), None);
    state.update_contract_details("ABCUSDT", 7.0, 8.0);
    assert_eq!(state.get_specific_contract_details("ABCUSDT"), Some((7.0, 8.0)));
}

#[test]
fn update_bybit_replaces_everything() {
    let mut state = state_with(&[("BTCUSDT", 100.0)]);
    let mut map = ContractMap::new();
    map.insert("SOLUSDT".to_string(), SymbolInfo::new(9.0, 0.0));
    state.update_bybit(map);
    assert_eq!(state.get_all_contracts().symbols(), vec!["SOLUSDT".to_string()]);
    assert_eq!(state.get_specific_contract_details("BTCUSDT"), None);
}

#[test]
fn insert_replaces_an_entry() {
    let mut map = ContractMap::new();
    map.insert("AUSDT".to_string(), SymbolInfo::new(1.0, 0.0));
    map.insert("BUSDT".to_string(), SymbolInfo::new(2.0, 0.0));
    map.insert("AUSDT".to_string(), SymbolInfo::new(3.0, 0.0));
    assert_eq!(map.symbols().len(), 2);
    assert_eq!(map.get("AUSDT").unwrap().max_order_qty, 3.0);
    assert!(map.contains("BUSDT"));
    assert!(!map.contains("CUSDT"));
}

#[test]
fn ticker_with_price() {
    let msg = r#"{"topic":"tickers.BTCUSDT","type":"snapshot","data":{"symbol":"BTCUSDT","lastPrice":"65000.5"}}"#;
    match read_ticker_update(msg) {
        TickerUpdate::Price { symbol, last_price } => {
            assert_eq!(symbol, "BTCUSDT");
            assert_eq!(last_price, "65000.5");
        }
        _ => panic!("expected a price"),
    }
}

#[test]
fn ticker_without_price_is_ignored() {
    let msg = r#"{"data":{"symbol":"BTCUSDT","bid1Price":"1"}}"#;
    assert!(matches!(read_ticker_update(msg), TickerUpdate::Ignored));
    let msg = r#"{"data":{"lastPrice":"1"}}"#;
    assert!(matches!(read_ticker_update(msg), TickerUpdate::Ignored));
    let msg = r#"{"data":{"symbol":"BTCUSDT","lastPrice":65000.5}}"#;
    assert!(matches!(read_ticker_update(msg), TickerUpdate::Ignored));
    let msg = r#"{"success":true,"ret_msg":"pong","op":"ping"}"#;
    assert!(matches!(read_ticker_update(msg), TickerUpdate::Ignored));
}

#[test]
fn ticker_that_is_not_json() {
    match read_ticker_update("not json") {
        TickerUpdate::InvalidJson(e) => assert_eq!(e, "expected ident at line 1 column 2"),
        _ => panic!("expected a parse error"),
    }
}

#[test]
fn decimal_timestamps() {
    assert_eq!(decimal_string(0), "0");
    assert_eq!(decimal_string(7), "7");
    assert_eq!(decimal_string(10), "10");
    assert_eq!(decimal_string(1700000000000), "1700000000000");
    assert_eq!(decimal_string(u64::MAX), u64::MAX.to_string());
}

#[test]
fn buy_body_is_written_as_the_exchange_expects() {
    assert_eq!(
        buy_order_body("HIFI", "1500", "0.4521"),
        r#"{"category": "linear", "side": "Buy", "orderType": "Limit", "timeInForce": "IOC", "symbol": "HIFIUSDT", "qty": "1500", "price": "0.4521"}"#
    );
}

#[test]
fn buy_request_is_signed() {
    let r = buy_order_request(1700000000000, "HIFI", "1500", "0.4521");
    assert_eq!(r.api_key, "APIKEY");
    assert_eq!(r.timestamp, "1700000000000");
    assert_eq!(r.body, buy_order_body("HIFI", "1500", "0.4521"));
    assert_eq!(r.sign, "38ff773130459fe11009c886d0b3e23c33a07f8f214d0dbe41fd9baa3a002d1e");
}

#[test]
fn sell_body_and_signature() {
    let body = sell_order_body("HIFIUSDT", "300");
    assert_eq!(body, r#"{"category":"linear","orderType":"Market","qty":"300","reduceOnly":true,"side":"Sell","symbol":"HIFIUSDT"}"#);
    let r = sell_order_request(1700000000123, "HIFIUSDT", "300");
    assert_eq!(r.body, body);
    assert_eq!(r.timestamp, "1700000000123");
    assert_eq!(r.sign, "0b53d83d983ea7f8a378170323a4911d21525c4ea8f8c50da3d4ed21ae8d9ab3");
}

#[test]
fn sell_body_escapes_the_symbol() {
    let body = sell_order_body("A\"B\\C\n\u{1}", "1");
    assert_eq!(
        body,
        "{\"category\":\"linear\",\"orderType\":\"Market\",\"qty\":\"1\",\"reduceOnly\":true,\"side\":\"Sell\",\"symbol\":\"A\\\"B\\\\C\\n\\u0001\"}"
    );
}

#[test]
fn keep_alive_body_and_signature() {
    assert_eq!(
        keep_alive_body(),
        r#"{"category":"linear","orderType":"Limit","price":"0.0682","qty":"200.0","side":"Buy","symbol":"DOGEUSDT","timeInForce":"IOC"}"#
    );
    let r = keep_alive_request(5);
    assert_eq!(r.timestamp, "5");
    assert_eq!(r.sign, "9b609a0fc8394b94172c21b325b03729998903af0b5356c6a9de63bd2c8bbc7b");
}

#[test]
fn empty_body_signature() {
    let r = sign_request(0, String::new());
    assert_eq!(r.sign, "b508a6fe162b10f7103db3d4af68405df97b6ce15a7aadcdb011da508fd2b042");
    assert_eq!(r.sign.len(), 64);
}

#[test]
fn headers_carry_key_timestamp_and_sign() {
    let r = sign_request(42, "{}".to_string());
    let h = r.headers();
    assert_eq!(h.len(), 3);
    assert_eq!(h[0], (HEADER_API_KEY.to_string(), "APIKEY".to_string()));
    assert_eq!(h[1], (HEADER_TIMESTAMP.to_string(), "42".to_string()));
    assert_eq!(h[2].0, HEADER_SIGN);
    assert_eq!(h[2].1, r.sign);
    for (_, v) in h.iter() {
        assert!(v.chars().all(|c| (' '..='~').contains(&c)));
    }
}

#[test]
fn urls() {
    assert_eq!(order_url(), "https://api.bybit.com/v5/order/create");
    assert_eq!(instruments_url(), "https://api.bybit.com/v5/market/instruments-info");
}

#[test]
fn stream_messages() {
    assert_eq!(subscribe_message("BTCUSDT"), r#"{"args":["tickers.BTCUSDT"],"op":"subscribe"}"#);
    assert_eq!(ping_message(), r#"{"op":"ping","req_id":"100001"}"#);
    let state = state_with(&[("BTCUSDT", 1.0), ("ETHUSDT", 2.0)]);
    let names = state.contract_symbols();
    let msgs = subscribe_messages(&names);
    assert_eq!(msgs.len(), 2);
    let mut sorted = msgs.clone();
    sorted.sort();
    assert_eq!(
        sorted,
        vec![
            r#"{"args":["tickers.BTCUSDT"],"op":"subscribe"}"#.to_string(),
            r#"{"args":["tickers.ETHUSDT"],"op":"subscribe"}"#.to_string(),
        ]
    );
}

#[test]
fn news_plan_uses_latest_details() {
    let mut state = state_with(&[("HIFIUSDT", 1.0e6)]);
    state.update_contract_details("HIFIUSDT", 0.4521, 1500.0);
    let plan = plan_news_trade(&state, "HIFI").unwrap();
    assert_eq!(plan.currency_pair, "HIFI");
    assert_eq!(plan.symbol, "HIFIUSDT");
    assert_eq!(plan.price, 0.4521);
    assert_eq!(plan.qty, 1500.0);
    assert!(plan_news_trade(&state, "DOGE").is_none());
    assert_eq!(BUY_ORDER_COUNT, 2);
    assert_eq!(SELL_ORDER_COUNT, 5);
}
