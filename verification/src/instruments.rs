use vstd::prelude::*;

use crate::contracts::{ContractMap, SymbolInfo, SymbolInfoView};
use crate::state::windows_bounded;
use crate::text::{ends_with, str_ends_with};

verus! {

/// The quote currency of the contracts the bot trades.
pub const QUOTE_CURRENCY: &'static str = "USDT";

/// One instrument of the exchange's instrument list: its symbol and its
/// largest order size.
pub struct InstrumentEntry<T> {
    pub symbol: String,
    pub max_order_qty: T,
}

/// An instrument as a pair of plain values.
pub open spec fn entry_view<T>(e: InstrumentEntry<T>) -> (Seq<char>, T) {
    (e.symbol@, e.max_order_qty)
}

/// The contracts built from an instrument list, in list order: each
/// instrument whose symbol ends with `USDT` gets a fresh entry whose windows
/// hold only `initial`; a later instrument with the same symbol replaces an
/// earlier one.
pub open spec fn usdt_pairs<T>(list: Seq<(Seq<char>, T)>, initial: T) -> Map<Seq<char>, SymbolInfoView<T>>
    decreases list.len(),
{
    if list.len() == 0 {
        Map::empty()
    } else {
        let prev = usdt_pairs(list.drop_last(), initial);
        let last = list.last();
        if ends_with(last.0, QUOTE_CURRENCY@) {
            prev.insert(
                last.0,
                SymbolInfoView { max_order_qty: last.1, adjusted_prices: seq![initial], num_contracts: seq![initial] },
            )
        } else {
            prev
        }
    }
}

/// Turns the exchange's answer to an instrument-list request into the
/// contracts the bot trades. A nonzero return code is refused with the
/// exchange's message.
pub fn currency_pairs_from_response<T: Copy>(
    ret_code: i32,
    ret_msg: String,
    list: Vec<InstrumentEntry<T>>,
    initial: T,
) -> (r: Result<ContractMap<T>, String>)
    ensures
        ret_code != 0 ==> (r matches Err(e) && e@ == ret_msg@),
        ret_code == 0 ==> (r matches Ok(m) && m@ == usdt_pairs(list@.map_values(|e: InstrumentEntry<T>| entry_view(e)), initial)),
{
    if ret_code != 0 {
        return Err(ret_msg);
    }
    let ghost views = list@.map_values(|e: InstrumentEntry<T>| entry_view(e));
    let mut map: ContractMap<T> = ContractMap::new();
    let mut i: usize = 0;
    let suffix = QUOTE_CURRENCY;
    proof {
        reveal_strlit("USDT");
        assert(views.subrange(0, 0) =~= Seq::<(Seq<char>, T)>::empty());
    }
    while i < list.len()
        invariant
            i <= list@.len(),
            views == list@.map_values(|e: InstrumentEntry<T>| entry_view(e)),
            suffix@ == QUOTE_CURRENCY@,
            map@ == usdt_pairs(views.subrange(0, i as int), initial),
        decreases list.len() - i,
    {
        let entry = &list[i];
        proof {
            let s = views.subrange(0, i as int + 1);
            assert(s.drop_last() =~= views.subrange(0, i as int));
            assert(s.last() == entry_view(list@[i as int]));
        }
        if str_ends_with(entry.symbol.as_str(), suffix) {
            let info = SymbolInfo::new(entry.max_order_qty, initial);
            map.insert(entry.symbol.clone(), info);
            proof {
                assert(info@ == SymbolInfoView { max_order_qty: entry.max_order_qty, adjusted_prices: seq![initial], num_contracts: seq![initial] });
            }
        }
        i = i + 1;
    }
    proof {
        assert(views.subrange(0, list@.len() as int) =~= views);
    }
    Ok(map)
}

/// Every contract built from an instrument list trades against `USDT` and
/// starts with both windows holding only the initial value.
pub proof fn law_pairs_are_fresh_usdt_contracts<T>(list: Seq<(Seq<char>, T)>, initial: T)
    ensures
        forall|k: Seq<char>| #[trigger] usdt_pairs(list, initial).contains_key(k) ==> {
            &&& ends_with(k, QUOTE_CURRENCY@)
            &&& usdt_pairs(list, initial)[k].adjusted_prices == seq![initial]
            &&& usdt_pairs(list, initial)[k].num_contracts == seq![initial]
        },
        windows_bounded(usdt_pairs(list, initial)),
    decreases list.len(),
{
    if list.len() > 0 {
        law_pairs_are_fresh_usdt_contracts(list.drop_last(), initial);
    }
}

} // verus!

verus! {

/// Every instrument whose symbol ends with `USDT` is in the table, and only
/// those; each carries the largest order size of the last instrument in the
/// list with its symbol, and both its windows hold only `initial`.
pub proof fn law_pairs_hold_every_usdt_instrument<T>(list: Seq<(Seq<char>, T)>, initial: T, k: Seq<char>)
    ensures
        usdt_pairs(list, initial).contains_key(k) <==> (
            k.len() >= 4 && k.subrange(k.len() - 4, k.len() as int) == "USDT"@
            && exists|i: int| 0 <= i < list.len() && #[trigger] list[i].0 == k),
        usdt_pairs(list, initial).contains_key(k) ==> exists|i: int| {
            &&& 0 <= i < list.len()
            &&& #[trigger] list[i].0 == k
            &&& usdt_pairs(list, initial)[k].max_order_qty == list[i].1
            &&& forall|j: int| i < j < list.len() ==> #[trigger] list[j].0 != k
        },
        usdt_pairs(list, initial).contains_key(k) ==> usdt_pairs(list, initial)[k].adjusted_prices == seq![initial]
            && usdt_pairs(list, initial)[k].num_contracts == seq![initial],
    decreases list.len(),
{
    reveal_strlit("USDT");
    if list.len() > 0 {
        let prev = list.drop_last();
        law_pairs_hold_every_usdt_instrument(prev, initial, k);
        let n = list.len() - 1;
        if exists|i: int| 0 <= i < prev.len() && #[trigger] prev[i].0 == k {
            let i = choose|i: int| 0 <= i < prev.len() && #[trigger] prev[i].0 == k;
            assert(list[i].0 == k);
        }
        if exists|i: int| 0 <= i < list.len() && #[trigger] list[i].0 == k {
            let i = choose|i: int| 0 <= i < list.len() && #[trigger] list[i].0 == k;
            if i < n {
                assert(prev[i].0 == k);
            }
        }
        if usdt_pairs(list, initial).contains_key(k) {
            if list.last().0 == k && ends_with(k, QUOTE_CURRENCY@) {
                assert(list[n].0 == k);
            } else {
                let i = choose|i: int| {
                    &&& 0 <= i < prev.len()
                    &&& #[trigger] prev[i].0 == k
                    &&& usdt_pairs(prev, initial)[k].max_order_qty == prev[i].1
                    &&& forall|j: int| i < j < prev.len() ==> #[trigger] prev[j].0 != k
                };
                assert(list[i].0 == k);
                assert forall|j: int| i < j < list.len() implies #[trigger] list[j].0 != k by {
                    if j < n {
                        assert(prev[j] == list[j]);
                    }
                }
            }
        }
    }
}

} // verus!
