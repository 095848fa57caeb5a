use vstd::prelude::*;

use crate::instruments::QUOTE_CURRENCY;
use crate::json::{json_quote, json_string};
use crate::signing::{header_safe, is_signed_request, sign_request, SignedRequest};

verus! {

/// The exchange's REST endpoint.
pub const BASE_URL: &'static str = "https://api.bybit.com";
/// Path of the order-creation call.
pub const ORDER_PATH: &'static str = "/v5/order/create";
/// Path of the instrument-list call.
pub const INSTRUMENTS_INFO_PATH: &'static str = "/v5/market/instruments-info";
/// The product category the bot trades: linear perpetual contracts.
pub const CATEGORY: &'static str = "linear";
/// Side of the orders that open a position.
pub const BUY_SIDE: &'static str = "Buy";
/// Side of the orders that close it.
pub const SELL_SIDE: &'static str = "Sell";
/// Type of the buy orders.
pub const BUY_ORDER_TYPE: &'static str = "Limit";
/// Type of the sell orders.
pub const SELL_ORDER_TYPE: &'static str = "Market";
/// Time in force of the limit orders: immediate or cancel.
pub const TIME_IN_FORCE: &'static str = "IOC";
/// Contract of the order that keeps the connection to the exchange warm.
pub const KEEP_ALIVE_SYMBOL: &'static str = "DOGEUSDT";
/// Quantity of the keep-alive order.
pub const KEEP_ALIVE_QTY: &'static str = "200.0";
/// Limit price of the keep-alive order, far below the market.
pub const KEEP_ALIVE_PRICE: &'static str = "0.0682";

/// Address of the order-creation call.
pub fn order_url() -> (r: String)
    ensures
        r@ == BASE_URL@ + ORDER_PATH@,
{
    let mut r = BASE_URL.to_owned();
    r.append(ORDER_PATH);
    r
}

/// Address of the instrument-list call.
pub fn instruments_url() -> (r: String)
    ensures
        r@ == BASE_URL@ + INSTRUMENTS_INFO_PATH@,
{
    let mut r = BASE_URL.to_owned();
    r.append(INSTRUMENTS_INFO_PATH);
    r
}

/// The body of a buy order for `currency_pair` against USDT: a limit,
/// immediate-or-cancel order of `qty` contracts at `price`, the values
/// written in as they are.
pub open spec fn buy_order_body_of(currency_pair: Seq<char>, qty: Seq<char>, price: Seq<char>) -> Seq<char> {
    "{\"category\": \""@ + CATEGORY@ + "\", \"side\": \""@ + BUY_SIDE@ + "\", \"orderType\": \""@
        + BUY_ORDER_TYPE@ + "\", \"timeInForce\": \""@ + TIME_IN_FORCE@ + "\", \"symbol\": \""@
        + currency_pair + QUOTE_CURRENCY@ + "\", \"qty\": \""@ + qty + "\", \"price\": \""@ + price
        + "\"}"@
}

/// The body of a buy order.
pub fn buy_order_body(currency_pair: &str, qty: &str, price: &str) -> (r: String)
    ensures
        r@ == buy_order_body_of(currency_pair@, qty@, price@),
{
    let mut r = "{\"category\": \"".to_owned();
    r.append(CATEGORY);
    r.append("\", \"side\": \"");
    r.append(BUY_SIDE);
    r.append("\", \"orderType\": \"");
    r.append(BUY_ORDER_TYPE);
    r.append("\", \"timeInForce\": \"");
    r.append(TIME_IN_FORCE);
    r.append("\", \"symbol\": \"");
    r.append(currency_pair);
    r.append(QUOTE_CURRENCY);
    r.append("\", \"qty\": \"");
    r.append(qty);
    r.append("\", \"price\": \"");
    r.append(price);
    r.append("\"}");
    r
}

/// The body of a sell order: a reduce-only market order of `qty` contracts
/// of `symbol`, as `serde_json` writes the object, members in key order.
pub open spec fn sell_order_body_of(symbol: Seq<char>, qty: Seq<char>) -> Seq<char> {
    "{\"category\":"@ + json_string(CATEGORY@) + ",\"orderType\":"@ + json_string(SELL_ORDER_TYPE@)
        + ",\"qty\":"@ + json_string(qty) + ",\"reduceOnly\":true,\"side\":"@ + json_string(SELL_SIDE@)
        + ",\"symbol\":"@ + json_string(symbol) + "}"@
}

/// The body of a sell order.
pub fn sell_order_body(symbol: &str, qty: &str) -> (r: String)
    ensures
        r@ == sell_order_body_of(symbol@, qty@),
{
    let mut r = "{\"category\":".to_owned();
    r.append(json_quote(CATEGORY).as_str());
    r.append(",\"orderType\":");
    r.append(json_quote(SELL_ORDER_TYPE).as_str());
    r.append(",\"qty\":");
    r.append(json_quote(qty).as_str());
    r.append(",\"reduceOnly\":true,\"side\":");
    r.append(json_quote(SELL_SIDE).as_str());
    r.append(",\"symbol\":");
    r.append(json_quote(symbol).as_str());
    r.append("}");
    r
}

/// The body of the keep-alive order: a limit, immediate-or-cancel buy of
/// `KEEP_ALIVE_QTY` DOGEUSDT at `KEEP_ALIVE_PRICE`, as `serde_json` writes
/// the object, members in key order.
pub open spec fn keep_alive_body_of() -> Seq<char> {
    "{\"category\":"@ + json_string(CATEGORY@) + ",\"orderType\":"@ + json_string(BUY_ORDER_TYPE@)
        + ",\"price\":"@ + json_string(KEEP_ALIVE_PRICE@) + ",\"qty\":"@ + json_string(KEEP_ALIVE_QTY@)
        + ",\"side\":"@ + json_string(BUY_SIDE@) + ",\"symbol\":"@ + json_string(KEEP_ALIVE_SYMBOL@)
        + ",\"timeInForce\":"@ + json_string(TIME_IN_FORCE@) + "}"@
}

/// The body of the keep-alive order.
pub fn keep_alive_body() -> (r: String)
    ensures
        r@ == keep_alive_body_of(),
{
    let mut r = "{\"category\":".to_owned();
    r.append(json_quote(CATEGORY).as_str());
    r.append(",\"orderType\":");
    r.append(json_quote(BUY_ORDER_TYPE).as_str());
    r.append(",\"price\":");
    r.append(json_quote(KEEP_ALIVE_PRICE).as_str());
    r.append(",\"qty\":");
    r.append(json_quote(KEEP_ALIVE_QTY).as_str());
    r.append(",\"side\":");
    r.append(json_quote(BUY_SIDE).as_str());
    r.append(",\"symbol\":");
    r.append(json_quote(KEEP_ALIVE_SYMBOL).as_str());
    r.append(",\"timeInForce\":");
    r.append(json_quote(TIME_IN_FORCE).as_str());
    r.append("}");
    r
}

/// A signed buy order for `currency_pair` against USDT, made at
/// `timestamp_ms`.
pub fn buy_order_request(timestamp_ms: u64, currency_pair: &str, qty: &str, price: &str) -> (r: SignedRequest)
    ensures
        is_signed_request(r, timestamp_ms, buy_order_body_of(currency_pair@, qty@, price@)),
        r.sign@.len() == 64,
        header_safe(r.api_key@) && header_safe(r.timestamp@) && header_safe(r.sign@),
{
    sign_request(timestamp_ms, buy_order_body(currency_pair, qty, price))
}

/// A signed sell order for `symbol`, made at `timestamp_ms`.
pub fn sell_order_request(timestamp_ms: u64, symbol: &str, qty: &str) -> (r: SignedRequest)
    ensures
        is_signed_request(r, timestamp_ms, sell_order_body_of(symbol@, qty@)),
        r.sign@.len() == 64,
        header_safe(r.api_key@) && header_safe(r.timestamp@) && header_safe(r.sign@),
{
    sign_request(timestamp_ms, sell_order_body(symbol, qty))
}

/// The signed keep-alive order, made at `timestamp_ms`.
pub fn keep_alive_request(timestamp_ms: u64) -> (r: SignedRequest)
    ensures
        is_signed_request(r, timestamp_ms, keep_alive_body_of()),
        r.sign@.len() == 64,
        header_safe(r.api_key@) && header_safe(r.timestamp@) && header_safe(r.sign@),
{
    sign_request(timestamp_ms, keep_alive_body())
}

} // verus!

verus! {

/// The buy body is the exchange's order template with the token, the
/// quantity and the price written in verbatim, each in its own member: the
/// symbol is the token followed by `USDT`, `qty` is the quantity and
/// `price` the price.
pub proof fn law_buy_body_template(currency_pair: Seq<char>, qty: Seq<char>, price: Seq<char>)
    ensures
        buy_order_body_of(currency_pair, qty, price)
            == "{\"category\": \"linear\", \"side\": \"Buy\", \"orderType\": \"Limit\", \"timeInForce\": \"IOC\", \"symbol\": \""@
            + currency_pair + "USDT\", \"qty\": \""@ + qty + "\", \"price\": \""@ + price + "\"}"@,
{
    reveal_strlit("{\"category\": \"linear\", \"side\": \"Buy\", \"orderType\": \"Limit\", \"timeInForce\": \"IOC\", \"symbol\": \"");
    reveal_strlit("{\"category\": \"");
    reveal_strlit("linear");
    reveal_strlit("\", \"side\": \"");
    reveal_strlit("Buy");
    reveal_strlit("\", \"orderType\": \"");
    reveal_strlit("Limit");
    reveal_strlit("\", \"timeInForce\": \"");
    reveal_strlit("IOC");
    reveal_strlit("\", \"symbol\": \"");
    reveal_strlit("USDT");
    reveal_strlit("USDT\", \"qty\": \"");
    reveal_strlit("\", \"qty\": \"");
    assert(buy_order_body_of(currency_pair, qty, price)
        =~= "{\"category\": \"linear\", \"side\": \"Buy\", \"orderType\": \"Limit\", \"timeInForce\": \"IOC\", \"symbol\": \""@
            + currency_pair + "USDT\", \"qty\": \""@ + qty + "\", \"price\": \""@ + price + "\"}"@);
}

} // verus!

verus! {

proof fn lemma_quoted_word(w: Seq<char>)
    requires
        forall|i: int| 0 <= i < w.len() ==> 'a' <= #[trigger] w[i] <= 'z' || 'A' <= w[i] <= 'Z' || '0' <= w[i] <= '9' || w[i] == '.',
    ensures
        json_string(w) == seq!['"'] + w + seq!['"'],
{
    crate::json::law_plain_text_is_quoted_unchanged(w);
}

/// The sell body is a reduce-only market order on the `linear` category
/// whose side is always `Sell`, with the quantity and the symbol each
/// written as a JSON string in its own member, members in key order.
pub proof fn law_sell_body_template(symbol: Seq<char>, qty: Seq<char>)
    ensures
        sell_order_body_of(symbol, qty)
            == "{\"category\":\"linear\",\"orderType\":\"Market\",\"qty\":"@ + json_string(qty)
            + ",\"reduceOnly\":true,\"side\":\"Sell\",\"symbol\":"@ + json_string(symbol) + "}"@,
{
    reveal_strlit("linear");
    reveal_strlit("Market");
    reveal_strlit("Sell");
    reveal_strlit("{\"category\":");
    reveal_strlit(",\"orderType\":");
    reveal_strlit(",\"qty\":");
    reveal_strlit(",\"reduceOnly\":true,\"side\":");
    reveal_strlit(",\"symbol\":");
    reveal_strlit("{\"category\":\"linear\",\"orderType\":\"Market\",\"qty\":");
    reveal_strlit(",\"reduceOnly\":true,\"side\":\"Sell\",\"symbol\":");
    lemma_quoted_word("linear"@);
    lemma_quoted_word("Market"@);
    lemma_quoted_word("Sell"@);
    assert(sell_order_body_of(symbol, qty)
        =~= "{\"category\":\"linear\",\"orderType\":\"Market\",\"qty\":"@ + json_string(qty)
            + ",\"reduceOnly\":true,\"side\":\"Sell\",\"symbol\":"@ + json_string(symbol) + "}"@);
}

/// The keep-alive body is the fixed limit, immediate-or-cancel buy of
/// 200.0 DOGEUSDT at 0.0682, members in key order.
pub proof fn law_keep_alive_body_text()
    ensures
        keep_alive_body_of()
            == "{\"category\":\"linear\",\"orderType\":\"Limit\",\"price\":\"0.0682\",\"qty\":\"200.0\",\"side\":\"Buy\",\"symbol\":\"DOGEUSDT\",\"timeInForce\":\"IOC\"}"@,
{
    reveal_strlit("linear");
    reveal_strlit("Limit");
    reveal_strlit("0.0682");
    reveal_strlit("200.0");
    reveal_strlit("Buy");
    reveal_strlit("DOGEUSDT");
    reveal_strlit("IOC");
    reveal_strlit("{\"category\":");
    reveal_strlit(",\"orderType\":");
    reveal_strlit(",\"price\":");
    reveal_strlit(",\"qty\":");
    reveal_strlit(",\"side\":");
    reveal_strlit(",\"symbol\":");
    reveal_strlit(",\"timeInForce\":");
    reveal_strlit("}");
    reveal_strlit("{\"category\":\"linear\",\"orderType\":\"Limit\",\"price\":\"0.0682\",\"qty\":\"200.0\",\"side\":\"Buy\",\"symbol\":\"DOGEUSDT\",\"timeInForce\":\"IOC\"}");
    lemma_quoted_word("linear"@);
    lemma_quoted_word("Limit"@);
    lemma_quoted_word("0.0682"@);
    lemma_quoted_word("200.0"@);
    lemma_quoted_word("Buy"@);
    lemma_quoted_word("DOGEUSDT"@);
    lemma_quoted_word("IOC"@);
    assert(keep_alive_body_of()
        =~= "{\"category\":\"linear\",\"orderType\":\"Limit\",\"price\":\"0.0682\",\"qty\":\"200.0\",\"side\":\"Buy\",\"symbol\":\"DOGEUSDT\",\"timeInForce\":\"IOC\"}"@);
}

/// Every order goes to the order-creation call of the REST endpoint.
pub proof fn law_order_url()
    ensures
        BASE_URL@ + ORDER_PATH@ == "https://api.bybit.com/v5/order/create"@,
        BASE_URL@ + INSTRUMENTS_INFO_PATH@ == "https://api.bybit.com/v5/market/instruments-info"@,
{
    reveal_strlit("https://api.bybit.com");
    reveal_strlit("/v5/order/create");
    reveal_strlit("/v5/market/instruments-info");
    reveal_strlit("https://api.bybit.com/v5/order/create");
    reveal_strlit("https://api.bybit.com/v5/market/instruments-info");
    assert(BASE_URL@ + ORDER_PATH@ =~= "https://api.bybit.com/v5/order/create"@);
    assert(BASE_URL@ + INSTRUMENTS_INFO_PATH@ =~= "https://api.bybit.com/v5/market/instruments-info"@);
}

} // verus!
