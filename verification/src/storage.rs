//! Windows of recent bars for many symbols.

use vstd::prelude::*;
use crate::market_data::window::pushed;
use crate::market_data::{MarketData, MarketDataWindow};
use crate::state_machine::context::ValueTable;

verus! {

/// One window of recent bars for every symbol that has been seen.
pub struct MarketDataStorage {
    windows: ValueTable<MarketDataWindow>,
    window_size: usize,
}

impl MarketDataStorage {
    /// The window of each symbol that has been seen.
    pub closed spec fn windows(&self) -> Map<Seq<char>, MarketDataWindow> {
        self.windows@
    }

    /// The capacity that every window of this storage is made with.
    pub closed spec fn window_size(&self) -> usize {
        self.window_size
    }

    /// The bars kept for `symbol`, oldest first; none for a symbol that has
    /// not been seen.
    pub open spec fn bars_of(&self, symbol: Seq<char>) -> Seq<MarketData> {
        if self.windows().contains_key(symbol) {
            self.windows()[symbol].bars()
        } else {
            Seq::empty()
        }
    }

    /// Every window was made with the storage's window size.
    #[verifier::type_invariant]
    closed spec fn windows_are_sized(&self) -> bool {
        forall|symbol: Seq<char>| #[trigger]
            self.windows@.contains_key(symbol) ==> self.windows@[symbol].capacity()
                == self.window_size
    }

    /// A storage without symbols whose windows will hold `window_size` bars.
    pub fn new(window_size: usize) -> (storage: MarketDataStorage)
        ensures
            storage.windows() == Map::<Seq<char>, MarketDataWindow>::empty(),
            storage.window_size() == window_size,
    {
        MarketDataStorage { windows: ValueTable::new(), window_size }
    }

    /// Appends `data` to the window of its symbol, which is made if the
    /// symbol is new. The windows of other symbols are left alone.
    pub fn push(&mut self, data: MarketData)
        ensures
            final(self).window_size() == old(self).window_size(),
            final(self).windows().dom() == old(self).windows().dom().insert(data.symbol@),
            final(self).bars_of(data.symbol@) == pushed(
                old(self).bars_of(data.symbol@),
                old(self).window_size() as nat,
                data,
            ),
            forall|other: Seq<char>|
                other != data.symbol@ && old(self).windows().contains_key(other)
                    ==> #[trigger] final(self).windows()[other] == old(self).windows()[other],
            final(self).windows()[data.symbol@].capacity() == old(self).window_size(),
    {
        proof {
            use_type_invariant(&*self);
        }
        let symbol = data.symbol.clone();
        let mut windows: ValueTable<MarketDataWindow> = ValueTable::new();
        std::mem::swap(&mut windows, &mut self.windows);
        let mut window = match windows.remove(symbol.as_str()) {
            Some(window) => window,
            None => MarketDataWindow::new(self.window_size),
        };
        window.push(data);
        windows.insert(symbol, window);
        self.windows = windows;
        proof {
            assert(self.windows().dom() =~= old(self).windows().dom().insert(data.symbol@));
        }
    }

    /// A copy of the window kept for `symbol`.
    pub fn get_window(&self, symbol: &str) -> (window: Option<MarketDataWindow>)
        ensures
            window is Some == self.windows().contains_key(symbol@),
            window is Some ==> window.unwrap().bars() == self.bars_of(symbol@)
                && window.unwrap().capacity() == self.window_size(),
    {
        proof {
            use_type_invariant(self);
        }
        match self.windows.get(symbol) {
            Some(window) => Some(window.clone()),
            None => None,
        }
    }

    /// The symbols that have been seen, each once, in no particular order.
    pub fn symbols(&self) -> (symbols: Vec<String>)
        ensures
            forall|i: int|
                0 <= i < symbols@.len() ==> self.windows().contains_key((#[trigger] symbols@[i])@),
            forall|symbol: Seq<char>| #[trigger]
                self.windows().contains_key(symbol) ==> exists|i: int|
                    0 <= i < symbols@.len() && (#[trigger] symbols@[i])@ == symbol,
            forall|i: int, j: int|
                0 <= i < j < symbols@.len() ==> (#[trigger] symbols@[i])@ != (
                #[trigger] symbols@[j])@,
    {
        let n = self.windows.len();
        let mut symbols: Vec<String> = Vec::new();
        let mut i: usize = 0;
        while i < n
            invariant
                i <= n,
                n == self.windows.count(),
                symbols@.len() == i,
                forall|k: int| 0 <= k < i ==> (#[trigger] symbols@[k])@ == self.windows.key_of(k),
                forall|k: int|
                    0 <= k < i ==> self.windows@.contains_key((#[trigger] symbols@[k])@),
            decreases n - i,
        {
            match self.windows.entry(i) {
                Some((symbol, _)) => {
                    symbols.push(symbol.clone());
                },
                None => {},
            }
            i = i + 1;
        }
        proof {
            assert forall|symbol: Seq<char>| #[trigger]
                self.windows().contains_key(symbol) implies exists|i: int|
                0 <= i < symbols@.len() && (#[trigger] symbols@[i])@ == symbol by {
                let at = self.windows.index_of(symbol);
                assert(symbols@[at]@ == symbol);
            }
        }
        symbols
    }
}

} // verus!
