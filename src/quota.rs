//! Per-identity daily quota decisions. The counters live in an outside
//! key-value store: a caller reads the stored text for [`QuotaTracker::key`],
//! hands it to [`QuotaTracker::check_and_reserve`], and after a successful
//! transformation writes what [`QuotaTracker::commit`] returns, ignoring any
//! write failure. Reading and writing are not atomic together, so concurrent
//! requests of one identity may exceed the quota.
use crate::error::AppError;
use crate::text::chars_of;
use vstd::prelude::*;

verus! {

/// How many transformations one identity may request per day.
pub const MAX_REQUESTS_PER_DAY: u32 = 5;

/// The refusal given once the day's quota is used up: it states the maximum
/// and says to try again tomorrow.
pub const RATE_LIMIT_MESSAGE: &'static str =
    "Rate limit exceeded. You can make 5 requests per day. Try again tomorrow.";

/// The refusal given once the day's quota is used up.
pub open spec fn rate_limit_message() -> Seq<char> {
    RATE_LIMIT_MESSAGE@
}

/// The identity of a client whose address is not known.
pub open spec fn unknown_identity() -> Seq<char> {
    seq!['u', 'n', 'k', 'n', 'o', 'w', 'n']
}

/// The identity taken from the forwarded-address headers, in priority order.
pub open spec fn identity_spec(
    connecting_ip: Option<Seq<char>>,
    forwarded_for: Option<Seq<char>>,
    real_ip: Option<Seq<char>>,
) -> Seq<char> {
    match connecting_ip {
        Some(a) => a,
        None => match forwarded_for {
            Some(a) => a,
            None => match real_ip {
                Some(a) => a,
                None => unknown_identity(),
            },
        },
    }
}

/// The store key of an identity's counter for a day.
pub open spec fn quota_key_spec(identity: Seq<char>, day: Seq<char>) -> Seq<char> {
    "rate_limit:"@ + identity + ":"@ + day
}

/// Whether `s` is a non-empty run of ASCII digits.
pub open spec fn is_digit_run(s: Seq<char>) -> bool {
    s.len() > 0 && forall|i: int| 0 <= i < s.len() ==> '0' <= #[trigger] s[i] && s[i] <= '9'
}

/// The number that a run of decimal digits denotes.
pub open spec fn digits_value(s: Seq<char>) -> nat
    decreases s.len(),
{
    if s.len() == 0 {
        0
    } else {
        digits_value(s.drop_last()) * 10 + (s.last() as nat - '0' as nat) as nat
    }
}

/// The `u32` that `s` spells in decimal, with an optional leading `+`.
pub open spec fn decimal_u32(s: Seq<char>) -> Option<u32> {
    let d = if s.len() > 0 && s[0] == '+' { s.drop_first() } else { s };
    if is_digit_run(d) && digits_value(d) <= u32::MAX {
        Some(digits_value(d) as u32)
    } else {
        None
    }
}

/// The count that a stored value denotes: missing or unreadable values count as zero.
pub open spec fn stored_count_spec(stored: Option<Seq<char>>) -> u32 {
    match stored {
        Some(s) => match decimal_u32(s) {
            Some(n) => n,
            None => 0,
        },
        None => 0,
    }
}

/// Whether a request of `identity` is let through when `count` requests were
/// already recorded for the day. An unknown identity is always let through.
pub open spec fn quota_allows(identity: Seq<char>, count: u32) -> bool {
    identity == unknown_identity() || count < MAX_REQUESTS_PER_DAY
}

/// The count recorded after one more accepted request.
pub open spec fn next_count_spec(count: u32) -> u32 {
    if count == u32::MAX { count } else { (count + 1) as u32 }
}

/// The counter of `key` in a store of counts: zero when it is absent.
pub open spec fn count_in(store: Map<Seq<char>, u32>, key: Seq<char>) -> u32 {
    if store.contains_key(key) {
        store[key]
    } else {
        0
    }
}

/// A store of counts after one accepted request of `identity` on `day` is
/// recorded, as [`QuotaTracker::commit`] directs.
pub open spec fn after_commit(store: Map<Seq<char>, u32>, identity: Seq<char>, day: Seq<char>) -> Map<Seq<char>, u32> {
    if identity == unknown_identity() {
        store
    } else {
        let k = quota_key_spec(identity, day);
        store.insert(k, next_count_spec(count_in(store, k)))
    }
}

/// A store of counts after `n` accepted requests of `identity` on `day`.
pub open spec fn after_commits(
    store: Map<Seq<char>, u32>,
    identity: Seq<char>,
    day: Seq<char>,
    n: nat,
) -> Map<Seq<char>, u32>
    decreases n,
{
    if n == 0 {
        store
    } else {
        after_commit(after_commits(store, identity, day, (n - 1) as nat), identity, day)
    }
}

/// Counters of one identity on two different days have different keys.
pub proof fn lemma_keys_differ_by_day(identity: Seq<char>, day: Seq<char>, other_day: Seq<char>)
    requires
        day != other_day,
    ensures
        quota_key_spec(identity, day) != quota_key_spec(identity, other_day),
{
    let p = "rate_limit:"@ + identity + ":"@;
    let k1 = quota_key_spec(identity, day);
    let k2 = quota_key_spec(identity, other_day);
    assert(k1 =~= p + day);
    assert(k2 =~= p + other_day);
    if k1 == k2 {
        assert((p + day).subrange(p.len() as int, k1.len() as int) =~= day);
        assert((p + other_day).subrange(p.len() as int, k2.len() as int) =~= other_day);
    }
}

proof fn lemma_commits_count(store: Map<Seq<char>, u32>, identity: Seq<char>, day: Seq<char>, other_day: Seq<char>, n: nat)
    requires
        identity != unknown_identity(),
        !store.contains_key(quota_key_spec(identity, day)),
        day != other_day,
        n <= MAX_REQUESTS_PER_DAY,
    ensures
        count_in(after_commits(store, identity, day, n), quota_key_spec(identity, day)) == n,
        count_in(after_commits(store, identity, day, n), quota_key_spec(identity, other_day))
            == count_in(store, quota_key_spec(identity, other_day)),
    decreases n,
{
    lemma_keys_differ_by_day(identity, day, other_day);
    if n > 0 {
        lemma_commits_count(store, identity, day, other_day, (n - 1) as nat);
    }
}

/// A known identity that has had [`MAX_REQUESTS_PER_DAY`] requests committed on
/// a day is refused on that day, while its count on any other day is left as
/// it was, so that a day with no counter yet lets it through.
pub proof fn lemma_daily_quota(
    store: Map<Seq<char>, u32>,
    identity: Seq<char>,
    day: Seq<char>,
    other_day: Seq<char>,
)
    requires
        identity != unknown_identity(),
        !store.contains_key(quota_key_spec(identity, day)),
        day != other_day,
    ensures
        count_in(after_commits(store, identity, day, MAX_REQUESTS_PER_DAY as nat), quota_key_spec(identity, day))
            == MAX_REQUESTS_PER_DAY,
        !quota_allows(
            identity,
            count_in(after_commits(store, identity, day, MAX_REQUESTS_PER_DAY as nat), quota_key_spec(identity, day)),
        ),
        count_in(after_commits(store, identity, day, MAX_REQUESTS_PER_DAY as nat), quota_key_spec(identity, other_day))
            == count_in(store, quota_key_spec(identity, other_day)),
        !store.contains_key(quota_key_spec(identity, other_day)) ==> quota_allows(
            identity,
            count_in(after_commits(store, identity, day, MAX_REQUESTS_PER_DAY as nat), quota_key_spec(identity, other_day)),
        ),
{
    lemma_commits_count(store, identity, day, other_day, MAX_REQUESTS_PER_DAY as nat);
}

proof fn lemma_unknown_commits(store: Map<Seq<char>, u32>, day: Seq<char>, n: nat)
    ensures
        after_commits(store, unknown_identity(), day, n) == store,
    decreases n,
{
    if n > 0 {
        lemma_unknown_commits(store, day, (n - 1) as nat);
    }
}

/// The unknown identity is never refused, whatever the count, and committing
/// its requests leaves the store unchanged however many there are.
pub proof fn lemma_unknown_never_limited(store: Map<Seq<char>, u32>, day: Seq<char>, count: u32, n: nat)
    ensures
        quota_allows(unknown_identity(), count),
        after_commits(store, unknown_identity(), day, n) == store,
{
    lemma_unknown_commits(store, day, n);
}

/// Relies on `u32::from_str` (`str::parse`): it accepts an optional `+`
/// followed by one or more ASCII digits whose value fits in a `u32`.
#[verifier::external_body]
fn parse_u32(s: &str) -> (r: Option<u32>)
    ensures
        r == decimal_u32(s@),
{
    s.parse::<u32>().ok()
}

/// Picks the client identity: the first present of the connecting-address,
/// forwarded-for and real-address headers, else `"unknown"`.
pub fn resolve_identity(
    connecting_ip: Option<String>,
    forwarded_for: Option<String>,
    real_ip: Option<String>,
) -> (r: String)
    ensures
        r@ == identity_spec(
            match connecting_ip { Some(a) => Some(a@), None => None },
            match forwarded_for { Some(a) => Some(a@), None => None },
            match real_ip { Some(a) => Some(a@), None => None },
        ),
{
    match connecting_ip {
        Some(a) => a,
        None => match forwarded_for {
            Some(a) => a,
            None => match real_ip {
                Some(a) => a,
                None => {
                    let u = "unknown".to_string();
                    proof {
                        reveal_strlit("unknown");
                    }
                    assert(u@ =~= unknown_identity());
                    u
                },
            },
        },
    }
}

/// Whether `c` ends the date part of a timestamp.
pub open spec fn ends_date(c: char) -> bool {
    c == 'T' || c == ' '
}

/// The date part of a timestamp such as `2025-01-31T12:00:00Z`: everything
/// before the first `T` or space.
pub fn day_of(timestamp: &str) -> (r: String)
    ensures
        r@.len() <= timestamp@.len(),
        r@ == timestamp@.subrange(0, r@.len() as int),
        r@.len() < timestamp@.len() ==> ends_date(timestamp@[r@.len() as int]),
        forall|j: int| 0 <= j < r@.len() ==> !ends_date(#[trigger] timestamp@[j]),
{
    let s = chars_of(timestamp);
    let mut i: usize = 0;
    while i < s.len() && !(s[i] == 'T' || s[i] == ' ')
        invariant
            i <= s@.len(),
            forall|j: int| 0 <= j < i ==> !ends_date(#[trigger] s@[j]),
        decreases s@.len() - i,
    {
        i = i + 1;
    }
    crate::text::string_of(&crate::text::slice_chars(&s, 0, i))
}

/// The store key of an identity's counter for a day: `rate_limit:<identity>:<day>`.
pub fn quota_key(identity: &str, day: &str) -> (r: String)
    ensures
        r@ == quota_key_spec(identity@, day@),
{
    let mut k = "rate_limit:".to_string();
    k.append(identity);
    k.append(":");
    k.append(day);
    k
}

/// The count that a stored value denotes: missing or unreadable values count as zero.
pub fn stored_count(stored: &Option<String>) -> (r: u32)
    ensures
        r == stored_count_spec(match stored { Some(s) => Some(s@), None => None }),
{
    match stored {
        Some(s) => match parse_u32(s.as_str()) {
            Some(n) => n,
            None => 0,
        },
        None => 0,
    }
}

/// One request's view of its identity's daily counter.
#[derive(Debug, Clone, PartialEq, Eq)]
pub struct QuotaTracker {
    identity: String,
    key: String,
    count: u32,
}

impl QuotaTracker {
    /// The identity the counter belongs to.
    pub closed spec fn identity_view(&self) -> Seq<char> {
        self.identity@
    }

    /// The store key of the counter.
    pub closed spec fn key_view(&self) -> Seq<char> {
        self.key@
    }

    /// The count read from the store, zero before it is read.
    pub closed spec fn count_view(&self) -> u32 {
        self.count
    }

    /// A tracker for `identity`'s counter on `day`, before the store is read.
    pub fn new(identity: String, day: &str) -> (r: QuotaTracker)
        ensures
            r.identity_view() == identity@,
            r.key_view() == quota_key_spec(identity@, day@),
            r.count_view() == 0,
    {
        let key = quota_key(identity.as_str(), day);
        QuotaTracker { identity, key, count: 0 }
    }

    /// Whether the identity is unknown, in which case no counting is done.
    pub fn is_unknown(&self) -> (r: bool)
        ensures
            r == (self.identity_view() == unknown_identity()),
    {
        let v = chars_of(self.identity.as_str());
        let u: Vec<char> = vec!['u', 'n', 'k', 'n', 'o', 'w', 'n'];
        assert(u@ =~= unknown_identity());
        if v.len() != u.len() {
            return false;
        }
        let r = crate::text::starts_with_chars(&v, &u);
        assert(r ==> v@ =~= u@.subrange(0, u@.len() as int));
        assert(u@.subrange(0, u@.len() as int) =~= u@);
        r
    }

    /// The store key to read before checking, or `None` when the identity is
    /// unknown and the store is not consulted.
    pub fn key(&self) -> (r: Option<&String>)
        ensures
            self.identity_view() == unknown_identity() ==> r is None,
            self.identity_view() != unknown_identity() ==> r is Some && r->0@ == self.key_view(),
    {
        if self.is_unknown() {
            None
        } else {
            Some(&self.key)
        }
    }

    /// Takes the value read from the store (`None` if it was missing or the
    /// read failed) and decides whether the request may proceed. An unknown
    /// identity always may; otherwise the request is refused with
    /// `RateLimitExceeded` once the day's count has reached the maximum.
    pub fn check_and_reserve(&mut self, stored: Option<String>) -> (r: Result<(), AppError>)
        ensures
            final(self).identity_view() == old(self).identity_view(),
            final(self).key_view() == old(self).key_view(),
            final(self).count_view() == stored_count_spec(match stored { Some(s) => Some(s@), None => None }),
            r is Ok <==> quota_allows(old(self).identity_view(), final(self).count_view()),
            r is Err ==> (r matches Err(AppError::RateLimitExceeded(m))
                && m@ == rate_limit_message()),
    {
        self.count = stored_count(&stored);
        if self.is_unknown() || self.count < MAX_REQUESTS_PER_DAY {
            Ok(())
        } else {
            Err(AppError::RateLimitExceeded(RATE_LIMIT_MESSAGE.to_string()))
        }
    }

    /// The write that records one more accepted request: the key and the new
    /// count, or `None` for an unknown identity.
    pub fn commit(&self) -> (r: Option<(String, u32)>)
        ensures
            self.identity_view() == unknown_identity() ==> r is None,
            self.identity_view() != unknown_identity() ==> match r {
                Some(w) => w.0@ == self.key_view() && w.1 == next_count_spec(self.count_view()),
                None => false,
            },
    {
        if self.is_unknown() {
            None
        } else {
            let next = if self.count == u32::MAX { self.count } else { self.count + 1 };
            Some((self.key.clone(), next))
        }
    }
}

} // verus!
