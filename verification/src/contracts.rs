use vstd::prelude::*;

verus! {

/// How many recent values each price window keeps.
pub const PRICE_WINDOW: usize = 4;

/// What the bot knows about one contract: the exchange's largest order size
/// and the most recent adjusted prices and order sizes, oldest first.
pub struct SymbolInfo<T> {
    pub max_order_qty: T,
    pub adjusted_prices: Vec<T>,
    pub num_contracts: Vec<T>,
}

/// The mathematical value of a `SymbolInfo`.
pub struct SymbolInfoView<T> {
    pub max_order_qty: T,
    pub adjusted_prices: Seq<T>,
    pub num_contracts: Seq<T>,
}

impl<T> View for SymbolInfo<T> {
    type V = SymbolInfoView<T>;

    open spec fn view(&self) -> SymbolInfoView<T> {
        SymbolInfoView {
            max_order_qty: self.max_order_qty,
            adjusted_prices: self.adjusted_prices@,
            num_contracts: self.num_contracts@,
        }
    }
}

/// A window after `x` is recorded: the oldest value leaves once the window
/// holds `PRICE_WINDOW` values or more, then `x` is appended.
pub open spec fn push_window<T>(w: Seq<T>, x: T) -> Seq<T> {
    if w.len() >= PRICE_WINDOW {
        w.drop_first().push(x)
    } else {
        w.push(x)
    }
}

/// A contract's entry after a new adjusted price and order size are recorded.
pub open spec fn record_details<T>(info: SymbolInfoView<T>, price: T, amount: T) -> SymbolInfoView<T> {
    SymbolInfoView {
        max_order_qty: info.max_order_qty,
        adjusted_prices: push_window(info.adjusted_prices, price),
        num_contracts: push_window(info.num_contracts, amount),
    }
}

/// The latest adjusted price and order size of an entry, when both windows
/// hold a value.
pub open spec fn latest_details<T>(info: SymbolInfoView<T>) -> Option<(T, T)> {
    if info.adjusted_prices.len() > 0 && info.num_contracts.len() > 0 {
        Some((info.adjusted_prices.last(), info.num_contracts.last()))
    } else {
        None
    }
}

fn copy_values<T: Copy>(v: &Vec<T>) -> (r: Vec<T>)
    ensures
        r@ == v@,
{
    let mut r: Vec<T> = Vec::new();
    let mut i: usize = 0;
    while i < v.len()
        invariant
            i <= v.len(),
            r@ == v@.subrange(0, i as int),
        decreases v.len() - i,
    {
        r.push(v[i]);
        i = i + 1;
        assert(r@ =~= v@.subrange(0, i as int));
    }
    assert(v@.subrange(0, v.len() as int) =~= v@);
    r
}

fn push_into_window<T>(w: &mut Vec<T>, x: T)
    ensures
        final(w)@ == push_window(old(w)@, x),
{
    if w.len() >= PRICE_WINDOW {
        w.remove(0);
        assert(old(w)@.remove(0) =~= old(w)@.drop_first());
    }
    w.push(x);
}

impl<T: Copy> SymbolInfo<T> {
    /// An entry with the given largest order size and both windows holding
    /// only `initial`.
    pub fn new(max_order_qty: T, initial: T) -> (r: Self)
        ensures
            r@.max_order_qty == max_order_qty,
            r@.adjusted_prices == seq![initial],
            r@.num_contracts == seq![initial],
    {
        let mut adjusted_prices: Vec<T> = Vec::new();
        adjusted_prices.push(initial);
        let mut num_contracts: Vec<T> = Vec::new();
        num_contracts.push(initial);
        assert(adjusted_prices@ =~= seq![initial]);
        assert(num_contracts@ =~= seq![initial]);
        SymbolInfo { max_order_qty, adjusted_prices, num_contracts }
    }

    /// A copy of this entry.
    pub fn copy(&self) -> (r: Self)
        ensures
            r@ == self@,
    {
        SymbolInfo {
            max_order_qty: self.max_order_qty,
            adjusted_prices: copy_values(&self.adjusted_prices),
            num_contracts: copy_values(&self.num_contracts),
        }
    }

    /// Records a new adjusted price and order size in the windows.
    pub fn record(&mut self, price: T, amount: T)
        ensures
            final(self)@ == record_details(old(self)@, price, amount),
    {
        push_into_window(&mut self.adjusted_prices, price);
        push_into_window(&mut self.num_contracts, amount);
    }

    /// The latest adjusted price and order size, when both windows hold one.
    pub fn latest(&self) -> (r: Option<(T, T)>)
        ensures
            r == latest_details(self@),
    {
        let np: usize = self.adjusted_prices.len();
        let nc: usize = self.num_contracts.len();
        if np > 0 && nc > 0 {
            Some((self.adjusted_prices[np - 1], self.num_contracts[nc - 1]))
        } else {
            None
        }
    }
}

} // verus!

verus! {

/// The contracts the bot trades, each under its symbol; a symbol occurs once.
pub struct ContractMap<T> {
    entries: Vec<(String, SymbolInfo<T>)>,
}

/// No symbol occurs twice among the entries.
pub open spec fn distinct_symbols<T>(entries: Seq<(String, SymbolInfo<T>)>) -> bool {
    forall|i: int, j: int|
        0 <= i < entries.len() && 0 <= j < entries.len() && i != j
            ==> #[trigger] entries[i].0@ != #[trigger] entries[j].0@
}

/// Whether some entry is filed under `key`.
pub open spec fn has_symbol<T>(entries: Seq<(String, SymbolInfo<T>)>, key: Seq<char>) -> bool {
    exists|i: int| 0 <= i < entries.len() && #[trigger] entries[i].0@ == key
}

/// The entries as a map from symbol to entry value.
pub open spec fn entries_map<T>(entries: Seq<(String, SymbolInfo<T>)>) -> Map<Seq<char>, SymbolInfoView<T>> {
    Map::new(
        |k: Seq<char>| has_symbol(entries, k),
        |k: Seq<char>| entries[choose|i: int| 0 <= i < entries.len() && #[trigger] entries[i].0@ == k].1@,
    )
}

proof fn lemma_entries_map_at<T>(entries: Seq<(String, SymbolInfo<T>)>, i: int)
    requires
        distinct_symbols(entries),
        0 <= i < entries.len(),
    ensures
        entries_map(entries).contains_key(entries[i].0@),
        entries_map(entries)[entries[i].0@] == entries[i].1@,
{
    let k = entries[i].0@;
    assert(has_symbol(entries, k));
    let j: int = choose|j: int| 0 <= j < entries.len() && #[trigger] entries[j].0@ == k;
    assert(j == i);
}

proof fn lemma_entries_map_update<T>(
    entries: Seq<(String, SymbolInfo<T>)>,
    i: int,
    info: SymbolInfo<T>,
)
    requires
        distinct_symbols(entries),
        0 <= i < entries.len(),
    ensures
        distinct_symbols(entries.update(i, (entries[i].0, info))),
        entries_map(entries.update(i, (entries[i].0, info)))
            =~= entries_map(entries).insert(entries[i].0@, info@),
{
    let s2 = entries.update(i, (entries[i].0, info));
    assert(distinct_symbols(s2)) by {
        assert forall|a: int, b: int|
            0 <= a < s2.len() && 0 <= b < s2.len() && a != b
            implies #[trigger] s2[a].0@ != #[trigger] s2[b].0@ by {
            assert(s2[a].0 == entries[a].0);
            assert(s2[b].0 == entries[b].0);
        }
    }
    let m1 = entries_map(entries).insert(entries[i].0@, info@);
    let m2 = entries_map(s2);
    assert forall|k: Seq<char>| m2.contains_key(k) <==> m1.contains_key(k) by {
        if has_symbol(s2, k) {
            let j: int = choose|j: int| 0 <= j < s2.len() && #[trigger] s2[j].0@ == k;
            assert(entries[j].0@ == k);
        }
        if has_symbol(entries, k) {
            let j: int = choose|j: int| 0 <= j < entries.len() && #[trigger] entries[j].0@ == k;
            assert(s2[j].0@ == k);
        }
        if k == entries[i].0@ {
            assert(s2[i].0@ == k);
        }
    }
    assert forall|k: Seq<char>| m2.contains_key(k) implies m2[k] == m1[k] by {
        let j: int = choose|j: int| 0 <= j < s2.len() && #[trigger] s2[j].0@ == k;
        lemma_entries_map_at(s2, j);
        if j == i {
        } else {
            assert(entries[j].0@ == k);
            lemma_entries_map_at(entries, j);
        }
    }
}

proof fn lemma_entries_map_push<T>(entries: Seq<(String, SymbolInfo<T>)>, key: String, info: SymbolInfo<T>)
    requires
        distinct_symbols(entries),
        !has_symbol(entries, key@),
    ensures
        distinct_symbols(entries.push((key, info))),
        entries_map(entries.push((key, info))) =~= entries_map(entries).insert(key@, info@),
{
    let s2 = entries.push((key, info));
    let n: int = entries.len() as int;
    assert(distinct_symbols(s2)) by {
        assert forall|a: int, b: int|
            0 <= a < s2.len() && 0 <= b < s2.len() && a != b
            implies #[trigger] s2[a].0@ != #[trigger] s2[b].0@ by {
            if a < n && b < n {
                assert(s2[a] == entries[a] && s2[b] == entries[b]);
            } else if a < n {
                assert(s2[a] == entries[a]);
                assert(entries[a].0@ != key@);
            } else if b < n {
                assert(s2[b] == entries[b]);
                assert(entries[b].0@ != key@);
            }
        }
    }
    let m1 = entries_map(entries).insert(key@, info@);
    let m2 = entries_map(s2);
    assert forall|k: Seq<char>| m2.contains_key(k) <==> m1.contains_key(k) by {
        if has_symbol(s2, k) {
            let j: int = choose|j: int| 0 <= j < s2.len() && #[trigger] s2[j].0@ == k;
            if j < n {
                assert(entries[j].0@ == k);
            }
        }
        if has_symbol(entries, k) {
            let j: int = choose|j: int| 0 <= j < entries.len() && #[trigger] entries[j].0@ == k;
            assert(s2[j].0@ == k);
        }
        if k == key@ {
            assert(s2[n].0@ == k);
        }
    }
    assert forall|k: Seq<char>| m2.contains_key(k) implies m2[k] == m1[k] by {
        let j: int = choose|j: int| 0 <= j < s2.len() && #[trigger] s2[j].0@ == k;
        lemma_entries_map_at(s2, j);
        if j < n {
            assert(entries[j].0@ == k);
            lemma_entries_map_at(entries, j);
        }
    }
}

proof fn lemma_entries_map_same<T>(a: Seq<(String, SymbolInfo<T>)>, b: Seq<(String, SymbolInfo<T>)>)
    requires
        a.len() == b.len(),
        forall|i: int| 0 <= i < a.len() ==> #[trigger] a[i].0@ == b[i].0@ && a[i].1@ == b[i].1@,
        distinct_symbols(a),
    ensures
        entries_map(a) == entries_map(b),
        distinct_symbols(b),
{
    assert forall|k: Seq<char>| has_symbol(a, k) <==> has_symbol(b, k) by {
        if has_symbol(a, k) {
            let j: int = choose|j: int| 0 <= j < a.len() && #[trigger] a[j].0@ == k;
            assert(b[j].0@ == k);
        }
        if has_symbol(b, k) {
            let j: int = choose|j: int| 0 <= j < b.len() && #[trigger] b[j].0@ == k;
            assert(a[j].0@ == k);
        }
    }
    assert forall|k: Seq<char>| has_symbol(a, k) implies
        a[choose|i: int| 0 <= i < a.len() && #[trigger] a[i].0@ == k].1@
        == b[choose|i: int| 0 <= i < b.len() && #[trigger] b[i].0@ == k].1@ by {
        let ja: int = choose|i: int| 0 <= i < a.len() && #[trigger] a[i].0@ == k;
        let jb: int = choose|i: int| 0 <= i < b.len() && #[trigger] b[i].0@ == k;
        assert(a[ja].0@ == k);
        assert(b[ja].0@ == k);
        assert(b[jb].0@ == k);
        assert(a[jb].0@ == k);
    }
    assert(entries_map(a) =~= entries_map(b));
    assert forall|x: int, y: int|
        0 <= x < b.len() && 0 <= y < b.len() && x != y
        implies #[trigger] b[x].0@ != #[trigger] b[y].0@ by {
        assert(a[x].0@ != a[y].0@);
    }
}

proof fn lemma_entries_map_dom_len<T>(entries: Seq<(String, SymbolInfo<T>)>)
    requires
        distinct_symbols(entries),
    ensures
        entries_map(entries).dom().finite(),
        entries_map(entries).dom().len() == entries.len(),
{
    let names = entries.map_values(|e: (String, SymbolInfo<T>)| e.0@);
    assert forall|a: int, b: int| 0 <= a < names.len() && 0 <= b < names.len() && a != b
        implies names[a] != names[b] by {
        assert(entries[a].0@ != entries[b].0@);
    }
    names.unique_seq_to_set();
    assert forall|k: Seq<char>| names.to_set().contains(k) <==> entries_map(entries).dom().contains(k) by {
        if has_symbol(entries, k) {
            let j: int = choose|j: int| 0 <= j < entries.len() && #[trigger] entries[j].0@ == k;
            assert(names[j] == k);
        }
        if names.to_set().contains(k) {
            let j: int = choose|j: int| 0 <= j < names.len() && names[j] == k;
            assert(entries[j].0@ == k);
        }
    }
    assert(names.to_set() =~= entries_map(entries).dom());
}

impl<T> ContractMap<T> {
    #[verifier::type_invariant]
    spec fn symbols_are_distinct(self) -> bool {
        distinct_symbols(self.entries@)
    }

    /// The contracts as a map from symbol to entry.
    pub closed spec fn view_map(self) -> Map<Seq<char>, SymbolInfoView<T>> {
        entries_map(self.entries@)
    }
}

impl<T> View for ContractMap<T> {
    type V = Map<Seq<char>, SymbolInfoView<T>>;

    open spec fn view(&self) -> Map<Seq<char>, SymbolInfoView<T>> {
        self.view_map()
    }
}

impl<T: Copy> ContractMap<T> {
    /// A map with no contract.
    pub fn new() -> (r: Self)
        ensures
            r@ == Map::<Seq<char>, SymbolInfoView<T>>::empty(),
    {
        let r = ContractMap { entries: Vec::new() };
        assert(r@ =~= Map::<Seq<char>, SymbolInfoView<T>>::empty());
        r
    }

    /// The position of the entry filed under `symbol`, if there is one.
    fn find(&self, symbol: &str) -> (r: Option<usize>)
        ensures
            match r {
                Some(i) => i < self.entries@.len() && self.entries@[i as int].0@ == symbol@,
                None => !has_symbol(self.entries@, symbol@),
            },
    {
        let key = symbol.to_owned();
        let mut i: usize = 0;
        while i < self.entries.len()
            invariant
                i <= self.entries@.len(),
                key@ == symbol@,
                forall|j: int| 0 <= j < i ==> #[trigger] self.entries@[j].0@ != symbol@,
            decreases self.entries.len() - i,
        {
            if self.entries[i].0 == key {
                return Some(i);
            }
            i = i + 1;
        }
        None
    }

    /// Whether a contract is filed under `symbol`.
    pub fn contains(&self, symbol: &str) -> (r: bool)
        ensures
            r == self@.contains_key(symbol@),
    {
        match self.find(symbol) {
            Some(i) => {
                proof {
                    use_type_invariant(self);
                    lemma_entries_map_at(self.entries@, i as int);
                }
                true
            },
            None => false,
        }
    }

    /// The entry filed under `symbol`, if there is one.
    pub fn get(&self, symbol: &str) -> (r: Option<&SymbolInfo<T>>)
        ensures
            match r {
                Some(info) => self@.contains_key(symbol@) && info@ == self@[symbol@],
                None => !self@.contains_key(symbol@),
            },
    {
        match self.find(symbol) {
            Some(i) => {
                proof {
                    use_type_invariant(self);
                    lemma_entries_map_at(self.entries@, i as int);
                }
                Some(&self.entries[i].1)
            },
            None => None,
        }
    }

    /// Files `info` under `symbol`, replacing any entry already there.
    pub fn insert(&mut self, symbol: String, info: SymbolInfo<T>)
        ensures
            final(self)@ == old(self)@.insert(symbol@, info@),
    {
        proof {
            use_type_invariant(&*self);
        }
        let found = self.find(symbol.as_str());
        let mut entries: Vec<(String, SymbolInfo<T>)> = Vec::new();
        std::mem::swap(&mut entries, &mut self.entries);
        let ghost old_entries = entries@;
        match found {
            Some(i) => {
                let (k, _old_info) = entries.remove(i);
                entries.insert(i, (k, info));
                proof {
                    assert(entries@ =~= old_entries.update(i as int, (old_entries[i as int].0, info)));
                    lemma_entries_map_update(old_entries, i as int, info);
                }
            },
            None => {
                proof {
                    lemma_entries_map_push(old_entries, symbol, info);
                }
                entries.push((symbol, info));
            },
        }
        self.entries = entries;
    }

    /// Records a new adjusted price and order size for the contract filed
    /// under `symbol`; returns whether there was one. A symbol that is not
    /// filed leaves the map unchanged.
    pub fn record_details(&mut self, symbol: &str, price: T, amount: T) -> (r: bool)
        ensures
            r == old(self)@.contains_key(symbol@),
            r ==> final(self)@ == old(self)@.insert(
                symbol@,
                record_details(old(self)@[symbol@], price, amount),
            ),
            !r ==> final(self)@ == old(self)@,
    {
        proof {
            use_type_invariant(&*self);
        }
        match self.find(symbol) {
            Some(i) => {
                let mut entries: Vec<(String, SymbolInfo<T>)> = Vec::new();
                std::mem::swap(&mut entries, &mut self.entries);
                let ghost old_entries = entries@;
                proof {
                    lemma_entries_map_at(old_entries, i as int);
                }
                let (k, mut info) = entries.remove(i);
                info.record(price, amount);
                entries.insert(i, (k, info));
                proof {
                    assert(entries@ =~= old_entries.update(i as int, (old_entries[i as int].0, info)));
                    lemma_entries_map_update(old_entries, i as int, info);
                }
                self.entries = entries;
                true
            },
            None => false,
        }
    }

    /// The latest adjusted price and order size of the contract filed under
    /// `symbol`, when there is one and both its windows hold a value.
    pub fn latest_details(&self, symbol: &str) -> (r: Option<(T, T)>)
        ensures
            r == (if self@.contains_key(symbol@) { latest_details(self@[symbol@]) } else { None }),
    {
        match self.get(symbol) {
            Some(info) => info.latest(),
            None => None,
        }
    }

    /// The symbols of all contracts, each once.
    pub fn symbols(&self) -> (r: Vec<String>)
        ensures
            forall|i: int| 0 <= i < r@.len() ==> self@.contains_key(#[trigger] r@[i]@),
            forall|k: Seq<char>| #[trigger] self@.contains_key(k) ==> exists|i: int| 0 <= i < r@.len() && #[trigger] r@[i]@ == k,
            forall|i: int, j: int| 0 <= i < r@.len() && 0 <= j < r@.len() && i != j ==> #[trigger] r@[i]@ != #[trigger] r@[j]@,
            r@.len() == self@.dom().len(),
            self@.dom().finite(),
    {
        proof {
            use_type_invariant(self);
            lemma_entries_map_dom_len(self.entries@);
        }
        let mut r: Vec<String> = Vec::new();
        let mut i: usize = 0;
        while i < self.entries.len()
            invariant
                i <= self.entries@.len(),
                r@.len() == i,
                forall|j: int| 0 <= j < i ==> #[trigger] r@[j]@ == self.entries@[j].0@,
            decreases self.entries.len() - i,
        {
            r.push(self.entries[i].0.clone());
            i = i + 1;
        }
        proof {
            assert forall|j: int| 0 <= j < r@.len() implies self@.contains_key(#[trigger] r@[j]@) by {
                lemma_entries_map_at(self.entries@, j);
            }
            assert forall|k: Seq<char>| #[trigger] self@.contains_key(k) implies exists|j: int| 0 <= j < r@.len() && #[trigger] r@[j]@ == k by {
                let j: int = choose|j: int| 0 <= j < self.entries@.len() && #[trigger] self.entries@[j].0@ == k;
                assert(r@[j]@ == k);
            }
            assert forall|a: int, b: int| 0 <= a < r@.len() && 0 <= b < r@.len() && a != b implies #[trigger] r@[a]@ != #[trigger] r@[b]@ by {
                assert(self.entries@[a].0@ != self.entries@[b].0@);
            }
        }
        r
    }

    /// A copy of the whole map.
    pub fn copy(&self) -> (r: Self)
        ensures
            r@ == self@,
    {
        proof {
            use_type_invariant(self);
        }
        let mut entries: Vec<(String, SymbolInfo<T>)> = Vec::new();
        let mut i: usize = 0;
        while i < self.entries.len()
            invariant
                i <= self.entries@.len(),
                entries@.len() == i,
                forall|j: int| 0 <= j < i ==> #[trigger] entries@[j].0@ == self.entries@[j].0@
                    && entries@[j].1@ == self.entries@[j].1@,
            decreases self.entries.len() - i,
        {
            let k = self.entries[i].0.clone();
            let info = self.entries[i].1.copy();
            entries.push((k, info));
            i = i + 1;
        }
        proof {
            lemma_entries_map_same(self.entries@, entries@);
        }
        ContractMap { entries }
    }
}

} // verus!
