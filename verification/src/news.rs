use vstd::prelude::*;

use crate::instruments::QUOTE_CURRENCY;
use crate::state::{details_of, BybitState};

verus! {

/// The news feed that announces tokens to trade.
pub const NEWS_SERVER_URL: &'static str = "ws://13.113.245.177:9000/websocket";
/// Seconds to wait before connecting to the news feed again.
pub const NEWS_RECONNECT_DELAY_SECS: u64 = 5;
/// Seconds between two keep-alive orders.
pub const KEEP_ALIVE_INTERVAL_SECS: u64 = 8;
/// Buy orders placed at once on a piece of news.
pub const BUY_ORDER_COUNT: usize = 2;
/// Sell orders that unwind what was bought, one after another.
pub const SELL_ORDER_COUNT: usize = 5;

/// What to trade on news about a token: buy `qty` contracts of the token's
/// USDT contract at `price`, `BUY_ORDER_COUNT` times, then sell what was
/// bought in `SELL_ORDER_COUNT` parts.
pub struct TradePlan<T> {
    /// The token as the news named it; the buy order appends `USDT`.
    pub currency_pair: String,
    /// The token's USDT contract, which the sell orders name.
    pub symbol: String,
    pub price: T,
    pub qty: T,
}

/// The contract that news about `token` is traded on.
pub open spec fn trade_symbol(token: Seq<char>) -> Seq<char> {
    token + QUOTE_CURRENCY@
}

/// The plan for news about `token`: `None` when the bot knows no latest
/// price and size for the token's USDT contract.
pub fn plan_news_trade<T: Copy>(state: &BybitState<T>, token: &str) -> (r: Option<TradePlan<T>>)
    ensures
        match details_of(state@, trade_symbol(token@)) {
            None => r is None,
            Some((price, qty)) => r matches Some(plan) && {
                &&& plan.currency_pair@ == token@
                &&& plan.symbol@ == trade_symbol(token@)
                &&& plan.price == price
                &&& plan.qty == qty
            },
        },
{
    let mut symbol = token.to_owned();
    symbol.append(QUOTE_CURRENCY);
    match state.get_specific_contract_details(symbol.as_str()) {
        Some((price, qty)) => Some(TradePlan { currency_pair: token.to_owned(), symbol, price, qty }),
        None => None,
    }
}

} // verus!

verus! {

/// News about a token is traded on the token's USDT contract: the token
/// unchanged, followed by `USDT`; the plan carries that contract's latest
/// price and size.
pub proof fn law_trade_symbol_is_token_usdt<T>(m: Map<Seq<char>, crate::contracts::SymbolInfoView<T>>, token: Seq<char>)
    ensures
        trade_symbol(token) == token + "USDT"@,
        trade_symbol(token).subrange(0, token.len() as int) == token,
        details_of(m, trade_symbol(token)) == details_of(m, token + "USDT"@),
{
    reveal_strlit("USDT");
    assert(trade_symbol(token).subrange(0, token.len() as int) =~= token);
}

} // verus!
