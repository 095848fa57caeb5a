use vstd::prelude::*;

use crate::contracts::{
    latest_details, push_window, record_details, ContractMap, SymbolInfoView, PRICE_WINDOW,
};

verus! {

/// The bot's shared knowledge of the exchange: every tradable contract with
/// its recent prices. Callers that share it between tasks hold it under a lock.
pub struct BybitState<T> {
    contracts: ContractMap<T>,
}

impl<T> View for BybitState<T> {
    type V = Map<Seq<char>, SymbolInfoView<T>>;

    open spec fn view(&self) -> Map<Seq<char>, SymbolInfoView<T>> {
        self.contracts_view()
    }
}

impl<T> BybitState<T> {
    /// The contracts as a map from symbol to entry.
    pub closed spec fn contracts_view(&self) -> Map<Seq<char>, SymbolInfoView<T>> {
        self.contracts@
    }
}

/// Every price window in `m` holds at most `PRICE_WINDOW` values.
pub open spec fn windows_bounded<T>(m: Map<Seq<char>, SymbolInfoView<T>>) -> bool {
    forall|k: Seq<char>| #[trigger] m.contains_key(k) ==> {
        &&& m[k].adjusted_prices.len() <= PRICE_WINDOW
        &&& m[k].num_contracts.len() <= PRICE_WINDOW
    }
}

/// The state after a ticker update for `symbol`: a known symbol has the new
/// values recorded, an unknown one changes nothing.
pub open spec fn state_after_update<T>(
    m: Map<Seq<char>, SymbolInfoView<T>>,
    symbol: Seq<char>,
    price: T,
    amount: T,
) -> Map<Seq<char>, SymbolInfoView<T>> {
    if m.contains_key(symbol) {
        m.insert(symbol, record_details(m[symbol], price, amount))
    } else {
        m
    }
}

/// The latest adjusted price and order size known for `symbol`.
pub open spec fn details_of<T>(m: Map<Seq<char>, SymbolInfoView<T>>, symbol: Seq<char>) -> Option<(T, T)> {
    if m.contains_key(symbol) {
        latest_details(m[symbol])
    } else {
        None
    }
}

impl<T: Copy> BybitState<T> {
    /// A state that knows no contract.
    pub fn new() -> (r: Self)
        ensures
            r@ == Map::<Seq<char>, SymbolInfoView<T>>::empty(),
    {
        BybitState { contracts: ContractMap::new() }
    }

    /// Replaces all known contracts with `new_contracts`.
    pub fn update_bybit(&mut self, new_contracts: ContractMap<T>)
        ensures
            final(self)@ == new_contracts@,
    {
        self.contracts = new_contracts;
    }

    /// A copy of all known contracts.
    pub fn get_all_contracts(&self) -> (r: ContractMap<T>)
        ensures
            r@ == self@,
    {
        self.contracts.copy()
    }

    /// The symbols of all known contracts, each once.
    pub fn contract_symbols(&self) -> (r: Vec<String>)
        ensures
            forall|i: int| 0 <= i < r@.len() ==> self@.contains_key(#[trigger] r@[i]@),
            forall|k: Seq<char>| #[trigger] self@.contains_key(k) ==> exists|i: int| 0 <= i < r@.len() && #[trigger] r@[i]@ == k,
            forall|i: int, j: int| 0 <= i < r@.len() && 0 <= j < r@.len() && i != j ==> #[trigger] r@[i]@ != #[trigger] r@[j]@,
            r@.len() == self@.dom().len(),
    {
        self.contracts.symbols()
    }

    /// The largest order size of the contract `symbol`, if it is known.
    pub fn max_order_qty(&self, symbol: &str) -> (r: Option<T>)
        ensures
            r == (if self@.contains_key(symbol@) { Some(self@[symbol@].max_order_qty) } else { None }),
    {
        match self.contracts.get(symbol) {
            Some(info) => Some(info.max_order_qty),
            None => None,
        }
    }

    /// The latest adjusted price and order size of the contract `token`:
    /// `None` when the contract is unknown or one of its windows is empty.
    pub fn get_specific_contract_details(&self, token: &str) -> (r: Option<(T, T)>)
        ensures
            r == details_of(self@, token@),
    {
        self.contracts.latest_details(token)
    }

    /// Records a new adjusted price and order size for `symbol`; each window
    /// drops its oldest value once it holds `PRICE_WINDOW` values. An unknown
    /// symbol is ignored. Returns whether the symbol was known.
    pub fn update_contract_details(&mut self, symbol: &str, adjusted_price: T, calculated_amount: T) -> (r: bool)
        ensures
            r == old(self)@.contains_key(symbol@),
            final(self)@ == state_after_update(old(self)@, symbol@, adjusted_price, calculated_amount),
    {
        self.contracts.record_details(symbol, adjusted_price, calculated_amount)
    }
}

/// After new values are recorded for a contract, they are its latest
/// details.
pub proof fn law_recorded_details_are_latest<T>(
    m: Map<Seq<char>, SymbolInfoView<T>>,
    symbol: Seq<char>,
    price: T,
    amount: T,
)
    requires
        m.contains_key(symbol),
    ensures
        details_of(state_after_update(m, symbol, price, amount), symbol) == Some((price, amount)),
{
}

/// A ticker update for one contract leaves every other contract as it was.
pub proof fn law_update_touches_one_contract<T>(
    m: Map<Seq<char>, SymbolInfoView<T>>,
    symbol: Seq<char>,
    other: Seq<char>,
    price: T,
    amount: T,
)
    requires
        other != symbol,
    ensures
        state_after_update(m, symbol, price, amount).contains_key(other) == m.contains_key(other),
        m.contains_key(other) ==> state_after_update(m, symbol, price, amount)[other] == m[other],
{
}

/// Updates never add or remove contracts.
pub proof fn law_update_keeps_symbols<T>(
    m: Map<Seq<char>, SymbolInfoView<T>>,
    symbol: Seq<char>,
    price: T,
    amount: T,
)
    ensures
        state_after_update(m, symbol, price, amount).dom() == m.dom(),
{
    if m.contains_key(symbol) {
        assert(m.insert(symbol, record_details(m[symbol], price, amount)).dom() =~= m.dom());
    }
}

/// A window never grows past `PRICE_WINDOW` values once it is within it,
/// and it never becomes empty.
pub proof fn law_window_bounded<T>(w: Seq<T>, x: T)
    requires
        w.len() <= PRICE_WINDOW,
    ensures
        push_window(w, x).len() <= PRICE_WINDOW,
        push_window(w, x).len() >= 1,
        push_window(w, x).last() == x,
{
}

/// Updates keep every price window within `PRICE_WINDOW` values.
pub proof fn law_update_keeps_windows_bounded<T>(
    m: Map<Seq<char>, SymbolInfoView<T>>,
    symbol: Seq<char>,
    price: T,
    amount: T,
)
    requires
        windows_bounded(m),
    ensures
        windows_bounded(state_after_update(m, symbol, price, amount)),
{
    let m2 = state_after_update(m, symbol, price, amount);
    assert forall|k: Seq<char>| #[trigger] m2.contains_key(k) implies
        m2[k].adjusted_prices.len() <= PRICE_WINDOW && m2[k].num_contracts.len() <= PRICE_WINDOW by {
        if m.contains_key(symbol) && k == symbol {
            law_window_bounded(m[symbol].adjusted_prices, price);
            law_window_bounded(m[symbol].num_contracts, amount);
        }
    }
}

} // verus!

verus! {

/// A window within `PRICE_WINDOW` values keeps, after `x` is recorded, the
/// last `PRICE_WINDOW` values of the window followed by `x`, oldest first;
/// recording never changes the largest order size.
pub proof fn law_window_keeps_latest_values<T>(info: SymbolInfoView<T>, price: T, amount: T)
    requires
        info.adjusted_prices.len() <= PRICE_WINDOW,
        info.num_contracts.len() <= PRICE_WINDOW,
    ensures
        ({
            let full = info.adjusted_prices.push(price);
            let kept = if full.len() > 4 { 4 } else { full.len() as int };
            record_details(info, price, amount).adjusted_prices == full.subrange(full.len() - kept, full.len() as int)
        }),
        ({
            let full = info.num_contracts.push(amount);
            let kept = if full.len() > 4 { 4 } else { full.len() as int };
            record_details(info, price, amount).num_contracts == full.subrange(full.len() - kept, full.len() as int)
        }),
        record_details(info, price, amount).max_order_qty == info.max_order_qty,
{
    let fp = info.adjusted_prices.push(price);
    let fc = info.num_contracts.push(amount);
    if fp.len() > 4 {
        assert(info.adjusted_prices.drop_first().push(price) =~= fp.subrange(fp.len() - 4, fp.len() as int));
    } else {
        assert(info.adjusted_prices.push(price) =~= fp.subrange(0, fp.len() as int));
    }
    if fc.len() > 4 {
        assert(info.num_contracts.drop_first().push(amount) =~= fc.subrange(fc.len() - 4, fc.len() as int));
    } else {
        assert(info.num_contracts.push(amount) =~= fc.subrange(0, fc.len() as int));
    }
}

} // verus!
