//! Price source settings and the request they stand for.

use vstd::prelude::*;
use vstd::string::*;

verus! {

/// Configuration for price source
#[derive(Debug, Clone)]
pub struct PriceConfig {
    /// Symbols to track (e.g., ["bitcoin", "ethereum"])
    pub symbols: Vec<String>,
    /// Poll interval in seconds
    pub interval_secs: u64,
}

/// What a settings map says about a price source; `None` where a key is
/// absent or holds a value of another type.
#[derive(Debug, Clone)]
pub struct PriceSettings {
    /// `symbols`: the strings of a sequence
    pub symbols: Option<Vec<String>>,
    /// `interval_secs`, a whole number
    pub interval_secs: Option<u64>,
}

impl PriceConfig {
    /// Create config from settings: the symbols default to bitcoin alone
    /// and the interval to one minute.
    pub fn from_settings(settings: PriceSettings) -> (config: PriceConfig)
        ensures
            match settings.symbols {
                Some(symbols) => config.symbols@ == symbols@,
                None => config.symbols@.len() == 1 && config.symbols@[0]@ == "bitcoin"@,
            },
            config.interval_secs == match settings.interval_secs {
                Some(secs) => secs,
                None => 60,
            },
    {
        let symbols = match settings.symbols {
            Some(symbols) => symbols,
            None => vec!["bitcoin".to_string()],
        };
        let interval_secs = match settings.interval_secs {
            Some(secs) => secs,
            None => 60,
        };
        PriceConfig { symbols, interval_secs }
    }
}

/// The symbols in order, with a comma between neighbours.
pub open spec fn comma_joined(symbols: Seq<String>) -> Seq<char>
    decreases symbols.len(),
{
    if symbols.len() == 0 {
        Seq::empty()
    } else if symbols.len() == 1 {
        symbols[0]@
    } else {
        comma_joined(symbols.drop_last()) + ","@ + symbols.last()@
    }
}

/// The request URL for a list of symbols.
pub open spec fn price_url(symbols: Seq<String>) -> Seq<char> {
    "https://api.coingecko.com/api/v3/simple/price?ids="@ + comma_joined(symbols)
        + "&vs_currencies=usd&include_24hr_vol=true&include_24hr_change=true"@
}

/// Build the API URL for a list of symbols: their names joined by commas
/// as the `ids` of the query, asking for the price in USD with volume and
/// change over 24 hours.
pub fn build_url(symbols: &[String]) -> (url: String)
    ensures
        url@ == price_url(symbols@),
{
    let mut ids = String::new();
    let mut i: usize = 0;
    while i < symbols.len()
        invariant
            i <= symbols.len(),
            ids@ == comma_joined(symbols@.take(i as int)),
        decreases symbols.len() - i,
    {
        proof {
            assert(symbols@.take(i + 1).drop_last() =~= symbols@.take(i as int));
        }
        if i > 0 {
            ids.append(",");
        }
        ids.append(symbols[i].as_str());
        i += 1;
    }
    proof {
        assert(symbols@.take(symbols@.len() as int) =~= symbols@);
    }
    let mut url = String::from_str("https://api.coingecko.com/api/v3/simple/price?ids=");
    url.append(ids.as_str());
    url.append("&vs_currencies=usd&include_24hr_vol=true&include_24hr_change=true");
    url
}

/// The most recent prices of one symbol, oldest first, at most
/// `max_size` of them.
pub struct PriceHistory<T> {
    prices: Vec<T>,
    max_size: usize,
}

impl<T> View for PriceHistory<T> {
    type V = Seq<T>;

    /// The prices kept, oldest first.
    closed spec fn view(&self) -> Seq<T> {
        self.prices@
    }
}

impl<T> PriceHistory<T> {
    /// The most prices that are kept.
    pub closed spec fn limit(&self) -> nat {
        self.max_size as nat
    }

    /// No more prices are kept than the limit allows.
    pub open spec fn wf(&self) -> bool {
        self@.len() <= self.limit()
    }

    /// An empty history that keeps up to `max_size` prices.
    pub fn new(max_size: usize) -> (history: Self)
        ensures
            history.wf(),
            history@ == Seq::<T>::empty(),
            history.limit() == max_size,
    {
        PriceHistory { prices: Vec::with_capacity(max_size), max_size }
    }

    /// Adds a price as the newest; the oldest leaves where the history is
    /// full.
    pub fn push(&mut self, price: T)
        requires
            old(self).wf(),
            old(self).limit() > 0,
        ensures
            final(self).wf(),
            final(self).limit() == old(self).limit(),
            final(self)@ == if old(self)@.len() >= old(self).limit() {
                old(self)@.drop_first().push(price)
            } else {
                old(self)@.push(price)
            },
    {
        if self.prices.len() >= self.max_size {
            let ghost before = self.prices@;
            self.prices.remove(0);
            assert(self.prices@ =~= before.drop_first());
        }
        self.prices.push(price);
    }

    /// The prices kept, oldest first.
    pub fn prices(&self) -> (prices: &[T])
        ensures
            prices@ == self@,
    {
        self.prices.as_slice()
    }

    /// The most prices that are kept.
    pub fn max_size(&self) -> (max_size: usize)
        ensures
            max_size == self.limit(),
    {
        self.max_size
    }
}

} // verus!
