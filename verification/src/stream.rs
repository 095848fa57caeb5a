use vstd::prelude::*;

use crate::json::{json_quote, json_string};

verus! {

/// The exchange's public stream of linear-contract market data.
pub const PUBLIC_STREAM_URL: &'static str = "wss://stream.bybit.com/v5/public/linear";
/// Seconds between two pings on the public stream.
pub const PING_INTERVAL_SECS: u64 = 20;
/// Seconds to wait before connecting to the public stream again.
pub const RECONNECT_DELAY_SECS: u64 = 10;
/// Prefix of the ticker topic of a contract.
pub const TICKER_TOPIC_PREFIX: &'static str = "tickers.";
/// Request id sent with every ping.
pub const PING_REQ_ID: &'static str = "100001";

/// The subscription to the ticker of `symbol`, as `serde_json` writes the
/// object, members in key order.
pub open spec fn subscribe_message_of(symbol: Seq<char>) -> Seq<char> {
    "{\"args\":["@ + json_string(TICKER_TOPIC_PREFIX@ + symbol) + "],\"op\":"@ + json_string("subscribe"@)
        + "}"@
}

/// The subscription to the ticker of `symbol`.
pub fn subscribe_message(symbol: &str) -> (r: String)
    ensures
        r@ == subscribe_message_of(symbol@),
{
    let mut topic = TICKER_TOPIC_PREFIX.to_owned();
    topic.append(symbol);
    let mut r = "{\"args\":[".to_owned();
    r.append(json_quote(topic.as_str()).as_str());
    r.append("],\"op\":");
    r.append(json_quote("subscribe").as_str());
    r.append("}");
    r
}

/// The ping, as `serde_json` writes the object, members in key order.
pub open spec fn ping_message_of() -> Seq<char> {
    "{\"op\":"@ + json_string("ping"@) + ",\"req_id\":"@ + json_string(PING_REQ_ID@) + "}"@
}

/// The ping that keeps the public stream open.
pub fn ping_message() -> (r: String)
    ensures
        r@ == ping_message_of(),
{
    let mut r = "{\"op\":".to_owned();
    r.append(json_quote("ping").as_str());
    r.append(",\"req_id\":");
    r.append(json_quote(PING_REQ_ID).as_str());
    r.append("}");
    r
}

/// One subscription per symbol, in the order of `symbols`.
pub fn subscribe_messages(symbols: &Vec<String>) -> (r: Vec<String>)
    ensures
        r@.len() == symbols@.len(),
        forall|i: int| 0 <= i < r@.len() ==> #[trigger] r@[i]@ == subscribe_message_of(symbols@[i]@),
{
    let mut r: Vec<String> = Vec::new();
    let mut i: usize = 0;
    while i < symbols.len()
        invariant
            i <= symbols@.len(),
            r@.len() == i,
            forall|j: int| 0 <= j < i ==> #[trigger] r@[j]@ == subscribe_message_of(symbols@[j]@),
        decreases symbols.len() - i,
    {
        r.push(subscribe_message(symbols[i].as_str()));
        i = i + 1;
    }
    r
}

} // verus!

verus! {

/// The subscription names the ticker topic of the symbol, `tickers.`
/// followed by the symbol, and the operation `subscribe`.
pub proof fn law_subscribe_message_text(symbol: Seq<char>)
    ensures
        subscribe_message_of(symbol) == "{\"args\":["@ + json_string("tickers."@ + symbol)
            + "],\"op\":\"subscribe\"}"@,
{
    reveal_strlit("tickers.");
    reveal_strlit("subscribe");
    reveal_strlit("],\"op\":");
    reveal_strlit("}");
    reveal_strlit("],\"op\":\"subscribe\"}");
    crate::json::law_plain_text_is_quoted_unchanged("subscribe"@);
    assert(subscribe_message_of(symbol) =~= "{\"args\":["@ + json_string("tickers."@ + symbol)
        + "],\"op\":\"subscribe\"}"@);
}

/// The ping is the operation `ping` with request id `100001`.
pub proof fn law_ping_message_text()
    ensures
        ping_message_of() == "{\"op\":\"ping\",\"req_id\":\"100001\"}"@,
{
    reveal_strlit("ping");
    reveal_strlit("100001");
    reveal_strlit("{\"op\":");
    reveal_strlit(",\"req_id\":");
    reveal_strlit("}");
    reveal_strlit("{\"op\":\"ping\",\"req_id\":\"100001\"}");
    crate::json::law_plain_text_is_quoted_unchanged("ping"@);
    crate::json::law_plain_text_is_quoted_unchanged("100001"@);
    assert(ping_message_of() =~= "{\"op\":\"ping\",\"req_id\":\"100001\"}"@);
}

} // verus!
