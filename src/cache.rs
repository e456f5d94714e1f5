//! Caching layers for historical bars and live quotes; neither holds data yet.

use vstd::prelude::*;

verus! {

/// Cache of historical price bars.
pub struct VnHistoricalCache;

/// Cache of live quotes.
pub struct VnQuoteCache;

} // verus!
