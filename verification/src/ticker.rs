//! The decisions of the fee ticker: where a quote comes from, what is
//! stored after a price was asked for, and how long a cached gas price holds.

use vstd::prelude::*;
use vstd::string::StrSliceExecFns;
use vstd::string::StringExecFns;

verus! {

/// Seconds between two rounds of price updates.
pub const UPDATE_PRICE_INTERVAL_SECS: u64 = 10 * 60;

/// Milliseconds that the ticker waits for the answer of a price source.
pub const REQUEST_TIMEOUT_MS: u64 = 700;

/// Milliseconds that the ticker waits for a connection to a price source.
pub const CONNECTION_TIMEOUT_MS: u64 = 700;

/// Why the ticker has no price.
#[derive(Debug, Clone, PartialEq, Eq)]
pub enum PriceError {
    /// The token is not known.
    TokenNotFound(String),
    /// The database failed, or holds no price.
    DBError(String),
}

impl PriceError {
    /// The error of a token that is not known.
    pub fn token_not_found(message: &str) -> (error: PriceError)
        ensures
            error matches PriceError::TokenNotFound(m) && m@ == message@,
    {
        PriceError::TokenNotFound(String::from_str(message))
    }

    /// The error of a failed database.
    pub fn db_error(message: &str) -> (error: PriceError)
        ensures
            error matches PriceError::DBError(m) && m@ == message@,
    {
        PriceError::DBError(String::from_str(message))
    }
}

/// Whether two texts are the same.
pub fn same_text(a: &str, b: &str) -> (same: bool)
    ensures
        same == (a@ == b@),
{
    let n: usize = a.unicode_len();
    if n != b.unicode_len() {
        return false;
    }
    let mut i: usize = 0;
    while i < n
        invariant
            i <= n,
            n == a@.len(),
            n == b@.len(),
            forall|j: int| 0 <= j < i ==> a@[j] == b@[j],
        decreases n - i,
    {
        if a.get_char(i) != b.get_char(i) {
            return false;
        }
        i += 1;
    }
    assert(a@ =~= b@);
    true
}

/// The symbol of the token whose price is one dollar by definition.
pub open spec fn pegged_symbol() -> Seq<char> {
    "RDOC"@
}

/// What the ticker does for a quote once it has looked the token up.
#[derive(Clone, Copy, Debug, PartialEq, Eq, Structural)]
pub enum TokenStep {
    /// The token is not known: the quote fails.
    TokenNotFound,
    /// The token is pegged to the dollar: its price is one, as of now.
    PeggedPrice,
    /// Look for the token's price in the cache.
    LookInCache,
}

/// What the ticker does for a quote once it has looked into the cache.
#[derive(Clone, Copy, Debug, PartialEq, Eq, Structural)]
pub enum CacheStep {
    /// The cache holds a price: it is the quote.
    ReturnCached,
    /// Look for the token's last price in the database.
    LookInHistory,
}

/// What the ticker does for a quote once it has looked into the database.
#[derive(Clone, Copy, Debug, PartialEq, Eq, Structural)]
pub enum HistoryStep {
    /// The database holds a price: store it as the current one; it is the quote.
    StoreAndReturn,
    /// No price is stored: the quote fails.
    NoPriceStored,
}

/// The first step of a quote: `symbol` is the symbol of the token that was
/// asked for, or `None` where the token is not known.
pub fn after_token_lookup(symbol: Option<&str>) -> (step: TokenStep)
    ensures
        step == match symbol {
            None => TokenStep::TokenNotFound,
            Some(s) => if s@ == pegged_symbol() {
                TokenStep::PeggedPrice
            } else {
                TokenStep::LookInCache
            },
        },
{
    match symbol {
        None => TokenStep::TokenNotFound,
        Some(s) => if same_text(s, "RDOC") {
            TokenStep::PeggedPrice
        } else {
            TokenStep::LookInCache
        },
    }
}

/// The second step of a quote.
pub fn after_cache_lookup(cached: bool) -> (step: CacheStep)
    ensures
        step == if cached {
            CacheStep::ReturnCached
        } else {
            CacheStep::LookInHistory
        },
{
    if cached {
        CacheStep::ReturnCached
    } else {
        CacheStep::LookInHistory
    }
}

/// The last step of a quote: `stored` says whether the database answered
/// and held a price. A failed query counts as no price.
pub fn after_history_lookup(stored: bool) -> (step: HistoryStep)
    ensures
        step == if stored {
            HistoryStep::StoreAndReturn
        } else {
            HistoryStep::NoPriceStored
        },
{
    if stored {
        HistoryStep::StoreAndReturn
    } else {
        HistoryStep::NoPriceStored
    }
}

/// What is stored after a price source was asked for a token's price.
#[derive(Clone, Copy, Debug, PartialEq, Eq, Structural)]
pub enum PriceUpdate {
    /// Store the price that the source gave.
    StoreFetched,
    /// The source does not list the token: store a price of zero, as of now.
    StoreZero,
    /// The source failed: store nothing and hand the error on.
    GiveUp,
}

/// Decides what is stored after a price source answered. `answer` is `None`
/// where the source gave a price, and its error otherwise.
pub fn update_price(answer: Option<&PriceError>) -> (update: PriceUpdate)
    ensures
        update == match answer {
            None => PriceUpdate::StoreFetched,
            Some(PriceError::TokenNotFound(_)) => PriceUpdate::StoreZero,
            Some(_) => PriceUpdate::GiveUp,
        },
{
    match answer {
        None => PriceUpdate::StoreFetched,
        Some(PriceError::TokenNotFound(_)) => PriceUpdate::StoreZero,
        Some(_) => PriceUpdate::GiveUp,
    }
}

/// Whether a gas price that was cached `elapsed_secs` seconds and
/// `elapsed_nanos` nanoseconds ago still holds, where cached prices expire
/// after `expiration_secs` seconds.
pub fn gas_price_is_fresh(elapsed_secs: u64, elapsed_nanos: u32, expiration_secs: u64) -> (fresh:
    bool)
    ensures
        fresh == (elapsed_secs < expiration_secs),
{
    elapsed_secs < expiration_secs
}

} // verus!
