use vstd::prelude::*;

use crate::json::{json_lookup_str, json_str_at};

verus! {

/// The member of a ticker push that holds the ticker.
pub const TICKER_DATA: &'static str = "data";
/// The member of the ticker that names the contract.
pub const TICKER_SYMBOL: &'static str = "symbol";
/// The member of the ticker that holds the last traded price, as text.
pub const TICKER_LAST_PRICE: &'static str = "lastPrice";

/// What a ticker push asks of the bot.
pub enum TickerUpdate {
    /// The push is not JSON; the parser's error text.
    InvalidJson(String),
    /// The push carries no symbol or no last price as strings.
    Ignored,
    /// A new last price, still as text, for a contract.
    Price { symbol: String, last_price: String },
}

/// The mathematical value of a `TickerUpdate`.
pub enum TickerUpdateView {
    InvalidJson(Seq<char>),
    Ignored,
    Price { symbol: Seq<char>, last_price: Seq<char> },
}

impl View for TickerUpdate {
    type V = TickerUpdateView;

    open spec fn view(&self) -> TickerUpdateView {
        match self {
            TickerUpdate::InvalidJson(e) => TickerUpdateView::InvalidJson(e@),
            TickerUpdate::Ignored => TickerUpdateView::Ignored,
            TickerUpdate::Price { symbol, last_price } => TickerUpdateView::Price {
                symbol: symbol@,
                last_price: last_price@,
            },
        }
    }
}

/// What the push `message` asks: the symbol is read first; without it the
/// push is ignored whatever else it holds, and with it the last price must
/// be a string too.
pub open spec fn ticker_update_of(message: Seq<char>) -> TickerUpdateView {
    match json_str_at(message, TICKER_DATA@, TICKER_SYMBOL@) {
        Err(e) => TickerUpdateView::InvalidJson(e),
        Ok(None) => TickerUpdateView::Ignored,
        Ok(Some(symbol)) => match json_str_at(message, TICKER_DATA@, TICKER_LAST_PRICE@) {
            Err(e) => TickerUpdateView::InvalidJson(e),
            Ok(None) => TickerUpdateView::Ignored,
            Ok(Some(last_price)) => TickerUpdateView::Price { symbol, last_price },
        },
    }
}

/// Reads a ticker push from the exchange's public stream.
pub fn read_ticker_update(message: &str) -> (r: TickerUpdate)
    ensures
        r@ == ticker_update_of(message@),
{
    match json_lookup_str(message, TICKER_DATA, TICKER_SYMBOL) {
        Err(e) => TickerUpdate::InvalidJson(e),
        Ok(None) => TickerUpdate::Ignored,
        Ok(Some(symbol)) => match json_lookup_str(message, TICKER_DATA, TICKER_LAST_PRICE) {
            Err(e) => TickerUpdate::InvalidJson(e),
            Ok(None) => TickerUpdate::Ignored,
            Ok(Some(last_price)) => TickerUpdate::Price { symbol, last_price },
        },
    }
}

} // verus!

verus! {

/// A push whose `data` member holds the strings `symbol` and `lastPrice`
/// asks to record exactly that symbol and that last traded price; no other
/// member of the push decides them.
pub proof fn law_ticker_price_is_data_last_price(message: Seq<char>, symbol: Seq<char>, last_price: Seq<char>)
    requires
        json_str_at(message, "data"@, "symbol"@) == Ok::<Option<Seq<char>>, Seq<char>>(Some(symbol)),
        json_str_at(message, "data"@, "lastPrice"@) == Ok::<Option<Seq<char>>, Seq<char>>(Some(last_price)),
    ensures
        ticker_update_of(message) == (TickerUpdateView::Price { symbol, last_price }),
{
}

/// A push that is not JSON is reported with the parser's error text; a
/// push without a `data.symbol` string is ignored.
pub proof fn law_ticker_without_symbol(message: Seq<char>)
    ensures
        json_str_at(message, "data"@, "symbol"@) is Err ==> ticker_update_of(message)
            == TickerUpdateView::InvalidJson(json_str_at(message, "data"@, "symbol"@)->Err_0),
        json_str_at(message, "data"@, "symbol"@) == Ok::<Option<Seq<char>>, Seq<char>>(None)
            ==> ticker_update_of(message) == TickerUpdateView::Ignored,
{
}

} // verus!

verus! {

/// A push with a `data.symbol` string but no `data.lastPrice` string is
/// ignored.
pub proof fn law_ticker_without_last_price(message: Seq<char>, symbol: Seq<char>)
    requires
        json_str_at(message, "data"@, "symbol"@) == Ok::<Option<Seq<char>>, Seq<char>>(Some(symbol)),
        json_str_at(message, "data"@, "lastPrice"@) == Ok::<Option<Seq<char>>, Seq<char>>(None),
    ensures
        ticker_update_of(message) == TickerUpdateView::Ignored,
{
}

} // verus!
