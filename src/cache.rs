use vstd::prelude::*;
use crate::error::{Error, ErrorKind};

verus! {

/// A gas price observed upstream, with the monotonic time (in milliseconds)
/// at which it was observed.
#[derive(Debug, Clone, Copy, PartialEq, Eq, Structural)]
pub struct CachedPrice {
    pub value: u128,
    pub observed_at: u64,
}

/// What a request does with the cache: use the cached price, or fetch a fresh one.
#[derive(Debug, Clone, Copy, PartialEq, Eq, Structural)]
pub enum CacheLookup {
    Hit(u128),
    Refresh,
}

/// The single shared entry of the network gas price. Callers hold it under
/// exclusive access for a whole lookup-and-refresh, so that concurrent
/// misses are served by one upstream fetch.
#[derive(Debug)]
pub struct GasPriceCache {
    entry: Option<CachedPrice>,
}

/// The time from `at` to `now`, zero if the clock reads earlier than `at`.
pub open spec fn elapsed(now: u64, at: u64) -> nat {
    if now >= at {
        (now - at) as nat
    } else {
        0
    }
}

/// The cached price that a request at `now` may use, if any: none when
/// caching is disabled (`ttl == 0`), else the entry's value while it is
/// younger than `ttl`.
pub open spec fn cache_hit(entry: Option<CachedPrice>, ttl: u64, now: u64) -> Option<u128> {
    if ttl == 0 {
        None
    } else {
        match entry {
            Some(c) => if elapsed(now, c.observed_at) < ttl {
                Some(c.value)
            } else {
                None
            },
            None => None,
        }
    }
}

/// The entry after a successful fetch of `price` at `now`: replaced, unless
/// caching is disabled.
pub open spec fn after_refresh(entry: Option<CachedPrice>, ttl: u64, now: u64, price: u128) -> Option<
    CachedPrice,
> {
    if ttl == 0 {
        entry
    } else {
        Some(CachedPrice { value: price, observed_at: now })
    }
}

/// Requests served one after another from the cache `entry`: request `k`
/// arrives at `times[k]`, and the `j`-th upstream fetch yields `quotes[j]`.
/// The result is the price each request observes and the number of fetches.
pub open spec fn serve(entry: Option<CachedPrice>, ttl: u64, times: Seq<u64>, quotes: Seq<u128>) -> (
    Seq<u128>,
    nat,
)
    decreases times.len(),
{
    if times.len() == 0 {
        (Seq::empty(), 0)
    } else {
        match cache_hit(entry, ttl, times[0]) {
            Some(p) => {
                let rest = serve(entry, ttl, times.drop_first(), quotes);
                (seq![p] + rest.0, rest.1)
            },
            None => {
                let rest = serve(
                    after_refresh(entry, ttl, times[0], quotes[0]),
                    ttl,
                    times.drop_first(),
                    quotes.drop_first(),
                );
                (seq![quotes[0]] + rest.0, rest.1 + 1)
            },
        }
    }
}

proof fn lemma_serve_len(entry: Option<CachedPrice>, ttl: u64, times: Seq<u64>, quotes: Seq<u128>)
    ensures
        serve(entry, ttl, times, quotes).0.len() == times.len(),
    decreases times.len(),
{
    if times.len() > 0 {
        lemma_serve_len(entry, ttl, times.drop_first(), quotes);
        lemma_serve_len(
            after_refresh(entry, ttl, times[0], quotes[0]),
            ttl,
            times.drop_first(),
            quotes.drop_first(),
        );
    }
}

proof fn lemma_fresh_entry_serves_all(c: CachedPrice, ttl: u64, times: Seq<u64>, quotes: Seq<u128>)
    requires
        ttl > 0,
        forall|i: int|
            0 <= i < times.len() ==> c.observed_at <= #[trigger] times[i] && times[i]
                < c.observed_at + ttl,
    ensures
        serve(Some(c), ttl, times, quotes).1 == 0,
        forall|i: int|
            0 <= i < times.len() ==> #[trigger] serve(Some(c), ttl, times, quotes).0[i] == c.value,
    decreases times.len(),
{
    lemma_serve_len(Some(c), ttl, times, quotes);
    if times.len() > 0 {
        let rest = times.drop_first();
        assert forall|i: int| 0 <= i < rest.len() implies c.observed_at <= #[trigger] rest[i]
            && rest[i] < c.observed_at + ttl by {
            assert(rest[i] == times[i + 1]);
        }
        lemma_fresh_entry_serves_all(c, ttl, rest, quotes);
        assert(times[0] < c.observed_at + ttl);
        let r = serve(Some(c), ttl, times, quotes).0;
        assert forall|i: int| 0 <= i < times.len() implies #[trigger] r[i] == c.value by {
            if i > 0 {
                assert(r[i] == serve(Some(c), ttl, rest, quotes).0[i - 1]);
            }
        }
    }
}

/// With caching enabled and no entry yet, requests that all arrive within one
/// time-to-live of the first are served by a single upstream fetch, and all
/// of them observe the price that fetch returned.
pub proof fn lemma_one_fetch_per_window(ttl: u64, times: Seq<u64>, quotes: Seq<u128>)
    requires
        ttl > 0,
        times.len() > 0,
        forall|i: int| 0 <= i < times.len() ==> times[0] <= #[trigger] times[i] && times[i] < times[0] + ttl,
    ensures
        serve(None, ttl, times, quotes).1 == 1,
        serve(None, ttl, times, quotes).0.len() == times.len(),
        forall|i: int|
            0 <= i < times.len() ==> #[trigger] serve(None, ttl, times, quotes).0[i] == quotes[0],
{
    let c = CachedPrice { value: quotes[0], observed_at: times[0] };
    let rest = times.drop_first();
    assert forall|i: int| 0 <= i < rest.len() implies c.observed_at <= #[trigger] rest[i] && rest[i]
        < c.observed_at + ttl by {
        assert(rest[i] == times[i + 1]);
    }
    lemma_fresh_entry_serves_all(c, ttl, rest, quotes.drop_first());
    lemma_serve_len(None, ttl, times, quotes);
    let r = serve(None, ttl, times, quotes).0;
    assert forall|i: int| 0 <= i < times.len() implies #[trigger] r[i] == quotes[0] by {
        if i > 0 {
            assert(r[i] == serve(Some(c), ttl, rest, quotes.drop_first()).0[i - 1]);
        }
    }
}

/// With caching disabled, every request makes its own upstream fetch and
/// observes what that fetch returned.
pub proof fn lemma_no_sharing_without_ttl(entry: Option<CachedPrice>, times: Seq<u64>, quotes: Seq<u128>)
    requires
        quotes.len() >= times.len(),
    ensures
        serve(entry, 0, times, quotes).1 == times.len(),
        serve(entry, 0, times, quotes).0 == quotes.subrange(0, times.len() as int),
    decreases times.len(),
{
    if times.len() > 0 {
        lemma_no_sharing_without_ttl(entry, times.drop_first(), quotes.drop_first());
        assert(seq![quotes[0]] + quotes.drop_first().subrange(0, times.len() - 1) =~= quotes.subrange(
            0,
            times.len() as int,
        ));
    } else {
        assert(quotes.subrange(0, 0) =~= Seq::<u128>::empty());
    }
}

/// While the upstream price stays `q`, and the cache holds nothing or `q`,
/// two requests in a row observe the same price `q`, whether the second is
/// served from the cache or by a new fetch.
pub proof fn lemma_repeat_request_same_price(entry: Option<CachedPrice>, ttl: u64, t1: u64, t2: u64, q: u128)
    requires
        entry is None || entry->0.value == q,
    ensures
        serve(entry, ttl, seq![t1, t2], seq![q, q]).0 == seq![q, q],
{
    let times = seq![t1, t2];
    let quotes = seq![q, q];
    assert(times.drop_first() =~= seq![t2]);
    assert(times.drop_first().drop_first() =~= Seq::<u64>::empty());
    assert(quotes.drop_first() =~= seq![q]);
    let e1 = match cache_hit(entry, ttl, t1) {
        Some(p) => entry,
        None => after_refresh(entry, ttl, t1, q),
    };
    assert(e1 is None || e1->0.value == q);
    let qs1 = match cache_hit(entry, ttl, t1) {
        Some(p) => quotes,
        None => quotes.drop_first(),
    };
    assert(qs1[0] == q);
    assert(serve(e1, ttl, seq![t2], qs1).0 =~= seq![q]) by {
        let one = seq![t2];
        assert(one.drop_first().len() == 0);
        assert(one[0] == t2);
        let e2 = after_refresh(e1, ttl, t2, qs1[0]);
        assert(serve(e1, ttl, one.drop_first(), qs1).0.len() == 0);
        assert(serve(e2, ttl, one.drop_first(), qs1.drop_first()).0.len() == 0);
        match cache_hit(e1, ttl, t2) {
            Some(p) => {
                assert(p == q);
            },
            None => {},
        }
    }
    assert(serve(entry, ttl, times, quotes).0 =~= seq![q, q]);
}

/// The price that an upstream fetch yielded, or the provider failure that
/// reports why it yielded none.
pub fn fetched_price(outcome: Result<u128, String>) -> (r: Result<u128, Error>)
    ensures
        outcome is Ok ==> r == Ok::<u128, Error>(outcome->Ok_0),
        outcome is Err ==> r is Err && r->Err_0.is(
            ErrorKind::Provider,
            "Failed to get gas price: "@ + outcome->Err_0@,
        ),
{
    match outcome {
        Ok(price) => Ok(price),
        Err(detail) => Err(
            Error::Provider(String::from_str("Failed to get gas price: ").concat(detail.as_str())),
        ),
    }
}

impl View for GasPriceCache {
    type V = Option<CachedPrice>;

    closed spec fn view(&self) -> Option<CachedPrice> {
        self.entry
    }
}

impl GasPriceCache {
    /// An empty cache.
    pub fn new() -> (r: Self)
        ensures
            r@ is None,
    {
        GasPriceCache { entry: None }
    }

    /// Decides how a request at `now` gets its price: from the entry while it
    /// is younger than `ttl`, else by a fresh upstream fetch. A `ttl` of zero
    /// bypasses the cache.
    pub fn lookup(&self, ttl: u64, now: u64) -> (r: CacheLookup)
        ensures
            r == (match cache_hit(self@, ttl, now) {
                Some(p) => CacheLookup::Hit(p),
                None => CacheLookup::Refresh,
            }),
            ttl == 0 ==> r == CacheLookup::Refresh,
    {
        if ttl == 0 {
            return CacheLookup::Refresh;
        }
        match self.entry {
            Some(c) => {
                let age = if now >= c.observed_at { now - c.observed_at } else { 0 };
                if age < ttl {
                    CacheLookup::Hit(c.value)
                } else {
                    CacheLookup::Refresh
                }
            },
            None => CacheLookup::Refresh,
        }
    }

    /// Takes the outcome of the upstream fetch made at `now`: a price is
    /// stored (unless caching is disabled) and returned; a failure leaves the
    /// entry untouched and is reported as a provider failure.
    pub fn finish_refresh(&mut self, ttl: u64, now: u64, outcome: Result<u128, String>) -> (r:
        Result<u128, Error>)
        ensures
            outcome is Ok ==> r == Ok::<u128, Error>(outcome->Ok_0) && final(self)@ == after_refresh(
                old(self)@,
                ttl,
                now,
                outcome->Ok_0,
            ),
            outcome is Err ==> final(self)@ == old(self)@ && r is Err && r->Err_0.is(
                ErrorKind::Provider,
                "Failed to get gas price: "@ + outcome->Err_0@,
            ),
    {
        if let Ok(price) = &outcome {
            if ttl != 0 {
                self.entry = Some(CachedPrice { value: *price, observed_at: now });
            }
        }
        fetched_price(outcome)
    }
}

/// A time-bounded cache of the latest block number.
#[derive(Debug)]
pub struct BlockMetricsCache {
    ttl: u64,
    last_block: Option<(u64, u64)>,
}

impl BlockMetricsCache {
    pub closed spec fn ttl(&self) -> u64 {
        self.ttl
    }

    /// The cached block number and the time at which it was observed.
    pub closed spec fn last_block(&self) -> Option<(u64, u64)> {
        self.last_block
    }

    /// An empty cache whose entries live for `ttl` milliseconds.
    pub fn new(ttl: u64) -> (r: Self)
        ensures
            r.ttl() == ttl,
            r.last_block() is None,
    {
        BlockMetricsCache { ttl, last_block: None }
    }

    /// The cached block number, while it is younger than the time-to-live.
    pub fn lookup(&self, now: u64) -> (r: Option<u64>)
        ensures
            r == (match self.last_block() {
                Some(b) => if elapsed(now, b.1) < self.ttl() {
                    Some(b.0)
                } else {
                    None
                },
                None => None,
            }),
    {
        match self.last_block {
            Some((block, at)) => {
                let age = if now >= at { now - at } else { 0 };
                if age < self.ttl {
                    Some(block)
                } else {
                    None
                }
            },
            None => None,
        }
    }

    /// Stores a block number fetched at `now`.
    pub fn record(&mut self, block: u64, now: u64)
        ensures
            final(self).ttl() == old(self).ttl(),
            final(self).last_block() == Some((block, now)),
    {
        self.last_block = Some((block, now));
    }
}

} // verus!
