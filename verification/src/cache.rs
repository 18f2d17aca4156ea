//! A named key-value cache whose entries expire after a per-key or a default
//! number of seconds.

use vstd::prelude::*;
use vstd::hash_map::StringHashMap;

verus! {

/// The last second of the year 9999 UTC, in seconds since 1970-01-01: every
/// instant from 1970 up to it is one that chrono represents.
pub const LAST_SECOND_OF_9999: u64 = 253_402_300_799;

/// The UTC timestamp (whole seconds since 1970-01-01) of the instant `secs`
/// seconds and `nanos` nanoseconds after 1970-01-01 UTC, or `None` when chrono
/// cannot represent that instant.
///
/// Trusted: calls `chrono::DateTime::from_timestamp(secs, nanos)` and reads
/// `timestamp()` of the result. chrono documents that the two round-trip, so a
/// result is `secs`; `from_timestamp` gives `None` only for seconds out of its
/// range (years beyond ±262142) or an invalid nanosecond count, so from 1970 to
/// the end of the year 9999 with fewer than 10^9 nanoseconds there is a result.
/// Where exactly the range ends is not stated.
#[verifier::external_body]
fn utc_timestamp(secs: i64, nanos: u32) -> (r: Option<i64>)
    ensures
        r matches Some(t) ==> t == secs,
        0 <= secs <= LAST_SECOND_OF_9999 && nanos < 1_000_000_000 ==> r == Some(secs),
{
    match chrono::DateTime::from_timestamp(secs, nanos) {
        Some(d) => Some(d.timestamp()),
        None => None,
    }
}

/// Whether `reading` is what the cache reads, in whole seconds, from the
/// system clock's reading `clock` (seconds and nanoseconds since 1970): the
/// clock's seconds; nothing without a clock reading; beyond the year 9999,
/// the clock's seconds or nothing (where chrono cannot represent the instant).
pub open spec fn seconds_of_clock(clock: Option<(u64, u32)>, reading: Option<i64>) -> bool {
    match clock {
        None => reading is None,
        Some((secs, nanos)) => if secs <= LAST_SECOND_OF_9999 && nanos < 1_000_000_000 {
            reading == Some(secs as i64)
        } else {
            reading is None || reading == Some(secs as i64)
        },
    }
}

/// The UTC timestamp in whole seconds of the system clock's reading `clock`,
/// made a chrono instant as `chrono::Utc::now` does; `None` when the clock is
/// set before 1970 or chrono cannot represent the instant (where `Utc::now`
/// panics).
fn utc_now(clock: Option<(u64, u32)>) -> (r: Option<i64>)
    ensures
        seconds_of_clock(clock, r),
{
    match clock {
        Some((secs, nanos)) => utc_timestamp(secs as i64, nanos),
        None => None,
    }
}

/// An operation on a key that the cache does not hold.
#[derive(Debug, Clone, Copy, PartialEq, Eq, Structural)]
pub enum CacheError {
    KeyNotFound,
}

/// The operations of a cache keyed by strings.
pub trait Cache<V> {
    /// The value stored under `key`, unless it has expired.
    fn get(&mut self, key: &str) -> Option<V>;

    /// Stores `value` under `key`, now, without a per-key expiry.
    fn set(&mut self, key: &str, value: V);

    /// Forgets `key`.
    fn delete(&mut self, key: &str);

    /// Makes the entry under `key` expire `expire` seconds after it was stored.
    fn expire(&mut self, key: &str, expire: i64) -> Result<(), CacheError>;
}

/// A cache: values, the time each was stored (seconds), per-key expiry
/// (seconds) and an optional default expiry for keys without one.
#[verifier::reject_recursive_types(V)]
pub struct CacheModel<V> {
    pub name: String,
    /// The entries; read and changed only through the cache's methods.
    pub inner: CacheEntries<V>,
}

/// The entries of a cache: values, the time each was stored, per-key
/// expiries and the default expiry.
#[verifier::reject_recursive_types(V)]
pub struct CacheEntries<V> {
    value: StringHashMap<V>,
    expire: StringHashMap<i64>,
    stored_at: StringHashMap<i64>,
    default_expire: Option<i64>,
}

impl<V> CacheModel<V> {
    /// The stored values.
    pub closed spec fn values(&self) -> Map<Seq<char>, V> {
        self.inner.value@
    }

    /// The per-key expiries, in seconds.
    pub closed spec fn expires(&self) -> Map<Seq<char>, i64> {
        self.inner.expire@
    }

    /// When each value was stored, in seconds.
    pub closed spec fn stored(&self) -> Map<Seq<char>, i64> {
        self.inner.stored_at@
    }

    /// The expiry of keys without their own, in seconds.
    pub closed spec fn default_expiry(&self) -> Option<i64> {
        self.inner.default_expire
    }

    /// Whether the entry under `k` has expired at time `now`: it was stored at
    /// least its expiry (its own, else the default one) seconds before `now`.
    pub open spec fn is_expired(&self, k: Seq<char>, now: int) -> bool {
        &&& self.stored().contains_key(k)
        &&& if self.expires().contains_key(k) {
            now - self.stored()[k] >= self.expires()[k]
        } else {
            self.default_expiry() matches Some(d) && now - self.stored()[k] >= d
        }
    }

    /// An empty cache whose entries never expire unless told to.
    pub fn new(name: &str) -> (r: Self)
        ensures
            r.name@ == name@,
            r.values() == Map::<Seq<char>, V>::empty(),
            r.expires() == Map::<Seq<char>, i64>::empty(),
            r.stored() == Map::<Seq<char>, i64>::empty(),
            r.default_expiry() is None,
    {
        CacheModel {
            name: name.to_string(),
            inner: CacheEntries {
                value: StringHashMap::new(),
                expire: StringHashMap::new(),
                stored_at: StringHashMap::new(),
                default_expire: None,
            },
        }
    }

    /// An empty cache whose entries expire `default_expire` seconds after they
    /// are stored, unless told otherwise.
    pub fn new_with_default_expire(name: &str, default_expire: i64) -> (r: Self)
        ensures
            r.name@ == name@,
            r.values() == Map::<Seq<char>, V>::empty(),
            r.expires() == Map::<Seq<char>, i64>::empty(),
            r.stored() == Map::<Seq<char>, i64>::empty(),
            r.default_expiry() == Some(default_expire),
    {
        CacheModel {
            name: name.to_string(),
            inner: CacheEntries {
                value: StringHashMap::new(),
                expire: StringHashMap::new(),
                stored_at: StringHashMap::new(),
                default_expire: Some(default_expire),
            },
        }
    }

    /// Stores `value` under `key` at time `now`, dropping any per-key expiry.
    pub fn set_at(&mut self, key: &str, value: V, now: i64)
        ensures
            final(self).values() == old(self).values().insert(key@, value),
            final(self).stored() == old(self).stored().insert(key@, now),
            final(self).expires() == old(self).expires().remove(key@),
            final(self).default_expiry() == old(self).default_expiry(),
            final(self).name@ == old(self).name@,
    {
        self.inner.value.insert(key.to_string(), value);
        self.inner.stored_at.insert(key.to_string(), now);
        self.inner.expire.remove(key);
    }
}

impl<V: Clone> CacheModel<V> {
    /// The value under `key` at time `now`. An expired entry is forgotten and
    /// gives `None`; otherwise the cache is unchanged and a clone of the stored
    /// value is returned, if there is one.
    pub fn get_at(&mut self, key: &str, now: i64) -> (r: Option<V>)
        ensures
            old(self).is_expired(key@, now as int) ==> {
                &&& r is None
                &&& final(self).values() == old(self).values().remove(key@)
                &&& final(self).stored() == old(self).stored().remove(key@)
                &&& final(self).expires() == old(self).expires().remove(key@)
            },
            !old(self).is_expired(key@, now as int) ==> {
                &&& final(self).values() == old(self).values()
                &&& final(self).stored() == old(self).stored()
                &&& final(self).expires() == old(self).expires()
                &&& (r is Some <==> old(self).values().contains_key(key@))
                &&& (r matches Some(v) ==> cloned(old(self).values()[key@], v))
            },
            final(self).default_expiry() == old(self).default_expiry(),
            final(self).name@ == old(self).name@,
    {
        let stored = match self.inner.stored_at.get(key) {
            Some(t) => Some(*t),
            None => None,
        };
        if let Some(store_at) = stored {
            let age: i128 = (now as i128) - (store_at as i128);
            let per_key = match self.inner.expire.get(key) {
                Some(e) => Some(*e),
                None => None,
            };
            if let Some(expire_sec) = per_key {
                if age >= expire_sec as i128 {
                    self.inner.value.remove(key);
                    self.inner.stored_at.remove(key);
                    self.inner.expire.remove(key);
                    return None;
                }
            } else if let Some(default_expire) = self.inner.default_expire {
                if age >= default_expire as i128 {
                    self.inner.value.remove(key);
                    self.inner.stored_at.remove(key);
                    proof {
                        assert(old(self).expires().remove(key@) =~= old(self).expires());
                    }
                    return None;
                }
            }
        }
        match self.inner.value.get(key) {
            Some(v) => Some(v.clone()),
            None => None,
        }
    }
}

impl<V: Clone> CacheModel<V> {
    /// What a read of `key` does at the clock reading `reading` (seconds):
    /// without a reading it gives `None` and changes nothing; otherwise it is
    /// what `get_at` does at that time, taking `after` from `self` and giving `r`.
    pub open spec fn read_outcome(self, after: Self, key: Seq<char>, reading: Option<i64>, r: Option<V>) -> bool {
        match reading {
            None => {
                &&& r is None
                &&& after.values() == self.values()
                &&& after.stored() == self.stored()
                &&& after.expires() == self.expires()
            },
            Some(now) => if self.is_expired(key, now as int) {
                &&& r is None
                &&& after.values() == self.values().remove(key)
                &&& after.stored() == self.stored().remove(key)
                &&& after.expires() == self.expires().remove(key)
            } else {
                &&& after.values() == self.values()
                &&& after.stored() == self.stored()
                &&& after.expires() == self.expires()
                &&& (r is Some <==> self.values().contains_key(key))
                &&& (r matches Some(v) ==> cloned(self.values()[key], v))
            },
        }
    }

    /// What storing `value` under `key` does at the clock reading `reading`
    /// (seconds): without a reading nothing changes; otherwise it is what
    /// `set_at` does at that time, taking `after` from `self`.
    pub open spec fn write_outcome(self, after: Self, key: Seq<char>, value: V, reading: Option<i64>) -> bool {
        match reading {
            None => {
                &&& after.values() == self.values()
                &&& after.stored() == self.stored()
                &&& after.expires() == self.expires()
            },
            Some(now) => {
                &&& after.values() == self.values().insert(key, value)
                &&& after.stored() == self.stored().insert(key, now)
                &&& after.expires() == self.expires().remove(key)
            },
        }
    }
}

impl<V: Clone> Cache<V> for CacheModel<V> {
    /// The value under `key` now (see `read_outcome`): what `get_at` gives at
    /// the current time, or `None` without change when the system clock is set
    /// before 1970.
    fn get(&mut self, key: &str) -> (r: Option<V>)
        ensures
            final(self).default_expiry() == old(self).default_expiry(),
            final(self).name@ == old(self).name@,
            exists|clock: Option<(u64, u32)>, reading: Option<i64>|
                (clock matches Some((_, nanos)) ==> nanos < 1_000_000_000) && #[trigger] seconds_of_clock(clock, reading)
                    && #[trigger] old(self).read_outcome(*final(self), key@, reading, r),
    {
        let ghost before = *self;
        let clock = crate::onebot::system_time_since_epoch();
        let reading = utc_now(clock);
        assert(seconds_of_clock(clock, reading));
        match reading {
            Some(now) => {
                let r = self.get_at(key, now);
                assert(before.read_outcome(*self, key@, reading, r));
                r
            },
            None => {
                assert(before.read_outcome(*self, key@, reading, None));
                None
            },
        }
    }

    /// Stores `value` under `key` with the current time (see `write_outcome`);
    /// nothing changes when the system clock is set before 1970.
    fn set(&mut self, key: &str, value: V)
        ensures
            final(self).default_expiry() == old(self).default_expiry(),
            final(self).name@ == old(self).name@,
            exists|clock: Option<(u64, u32)>, reading: Option<i64>|
                (clock matches Some((_, nanos)) ==> nanos < 1_000_000_000) && #[trigger] seconds_of_clock(clock, reading)
                    && #[trigger] old(self).write_outcome(*final(self), key@, value, reading),
    {
        let ghost before = *self;
        let clock = crate::onebot::system_time_since_epoch();
        let reading = utc_now(clock);
        assert(seconds_of_clock(clock, reading));
        match reading {
            Some(now) => {
                self.set_at(key, value, now);
                assert(before.write_outcome(*self, key@, value, reading));
            },
            None => {
                assert(before.write_outcome(*self, key@, value, reading));
            },
        }
    }

    /// Forgets `key`.
    fn delete(&mut self, key: &str)
        ensures
            final(self).values() == old(self).values().remove(key@),
            final(self).stored() == old(self).stored().remove(key@),
            final(self).expires() == old(self).expires().remove(key@),
            final(self).default_expiry() == old(self).default_expiry(),
            final(self).name@ == old(self).name@,
    {
        self.inner.value.remove(key);
        self.inner.stored_at.remove(key);
        self.inner.expire.remove(key);
    }

    /// Gives the entry under `key` its own expiry of `expire` seconds, if the
    /// cache holds a value under `key`.
    fn expire(&mut self, key: &str, expire: i64) -> (r: Result<(), CacheError>)
        ensures
            old(self).values().contains_key(key@) ==> r is Ok && final(self).expires() == old(self).expires().insert(key@, expire),
            !old(self).values().contains_key(key@) ==> r == Err::<(), CacheError>(CacheError::KeyNotFound)
                && final(self).expires() == old(self).expires(),
            final(self).values() == old(self).values(),
            final(self).stored() == old(self).stored(),
            final(self).default_expiry() == old(self).default_expiry(),
            final(self).name@ == old(self).name@,
    {
        if self.inner.value.contains_key(key) {
            self.inner.expire.insert(key.to_string(), expire);
            Ok(())
        } else {
            Err(CacheError::KeyNotFound)
        }
    }
}


/// What a read gives back of a write: right after `key` is set to `value`
/// at time `t0`, a read at time `t` finds `value`, unless the default expiry
/// has passed by then.
pub proof fn law_get_after_set<V>(before: CacheModel<V>, after: CacheModel<V>, key: Seq<char>, value: V, t0: i64, t: int)
    requires
        after.values() == before.values().insert(key, value),
        after.stored() == before.stored().insert(key, t0),
        after.expires() == before.expires().remove(key),
        after.default_expiry() == before.default_expiry(),
        after.default_expiry() matches Some(d) ==> t - t0 < d,
    ensures
        !after.is_expired(key, t),
        after.values().contains_key(key),
        after.values()[key] == value,
{
}

/// Once an entry's own expiry has passed, a read finds nothing and the entry is gone.
pub proof fn law_expired_entry_is_dropped<V>(c: CacheModel<V>, key: Seq<char>, t: int)
    requires
        c.stored().contains_key(key),
        c.expires().contains_key(key),
        t - c.stored()[key] >= c.expires()[key],
    ensures
        c.is_expired(key, t),
{
}

/// After a key is deleted no read finds it: it is not expired (so a read
/// changes nothing) and holds no value.
pub proof fn law_get_after_delete<V>(before: CacheModel<V>, after: CacheModel<V>, key: Seq<char>, t: int)
    requires
        after.values() == before.values().remove(key),
        after.stored() == before.stored().remove(key),
        after.expires() == before.expires().remove(key),
    ensures
        !after.is_expired(key, t),
        !after.values().contains_key(key),
{
}

/// A value set without any expiry in a cache without a default expiry never expires.
pub proof fn law_no_expiry_never_expires<V>(c: CacheModel<V>, key: Seq<char>, t: int)
    requires
        c.default_expiry() is None,
        !c.expires().contains_key(key),
    ensures
        !c.is_expired(key, t),
{
}


/// The last expiry given to an entry decides, whatever the default: after
/// `expire(key, x)` on an entry stored at `t0`, the entry is expired at `t`
/// exactly when `t - t0 >= x`, whether `x` is shorter or longer than the default.
pub proof fn law_last_expire_decides<V>(before: CacheModel<V>, after: CacheModel<V>, key: Seq<char>, x: i64, t: int)
    requires
        before.stored().contains_key(key),
        after.expires() == before.expires().insert(key, x),
        after.stored() == before.stored(),
        after.default_expiry() == before.default_expiry(),
    ensures
        after.is_expired(key, t) == (t - before.stored()[key] >= x),
{
}

/// A read that finds its entry expired returns nothing and leaves the key
/// with no value, no stored time and no expiry.
pub proof fn law_expired_read_leaves_key_absent<V: Clone>(
    before: CacheModel<V>,
    after: CacheModel<V>,
    key: Seq<char>,
    now: i64,
    r: Option<V>,
)
    requires
        before.is_expired(key, now as int),
        before.read_outcome(after, key, Some(now), r),
    ensures
        r is None,
        !after.values().contains_key(key),
        !after.stored().contains_key(key),
        !after.expires().contains_key(key),
{
}

/// An absent key stays absent until it is set again: reading it gives
/// nothing and changes nothing, and storing another key leaves it absent.
pub proof fn law_absent_key_stays_absent<V: Clone>(
    c: CacheModel<V>,
    read_after: CacheModel<V>,
    write_after: CacheModel<V>,
    key: Seq<char>,
    other: Seq<char>,
    value: V,
    reading: Option<i64>,
    other_reading: Option<i64>,
    r: Option<V>,
)
    requires
        !c.values().contains_key(key),
        !c.stored().contains_key(key),
        !c.expires().contains_key(key),
        c.read_outcome(read_after, key, reading, r),
        other != key,
        c.write_outcome(write_after, other, value, other_reading),
    ensures
        r is None,
        !read_after.values().contains_key(key),
        !read_after.stored().contains_key(key),
        !read_after.expires().contains_key(key),
        !write_after.values().contains_key(key),
        !write_after.stored().contains_key(key),
        !write_after.expires().contains_key(key),
{
}


/// `after` is `before` with `value` stored under `key` at `t0` (what `set_at` does).
pub open spec fn is_set_step<V>(before: CacheModel<V>, after: CacheModel<V>, key: Seq<char>, value: V, t0: i64) -> bool {
    &&& after.values() == before.values().insert(key, value)
    &&& after.stored() == before.stored().insert(key, t0)
    &&& after.expires() == before.expires().remove(key)
    &&& after.default_expiry() == before.default_expiry()
}

/// `after` is `before` once `expire(key, x)` succeeded on it (what `expire` does
/// when the key holds a value).
pub open spec fn is_expire_step<V>(before: CacheModel<V>, after: CacheModel<V>, key: Seq<char>, x: i64) -> bool {
    &&& before.values().contains_key(key)
    &&& after.values() == before.values()
    &&& after.stored() == before.stored()
    &&& after.expires() == before.expires().insert(key, x)
    &&& after.default_expiry() == before.default_expiry()
}

/// The expiry that decides after a `set` followed by the expiries `xs`: the
/// last of them, else the default.
pub open spec fn deciding_expiry(xs: Seq<i64>, default: Option<i64>) -> Option<i64> {
    if xs.len() > 0 {
        Some(xs.last())
    } else {
        default
    }
}

proof fn lemma_expire_chain<V>(states: Seq<CacheModel<V>>, xs: Seq<i64>, key: Seq<char>, value: V, t0: i64, n: int)
    requires
        states.len() == xs.len() + 1,
        0 <= n < states.len(),
        states[0].values().contains_key(key),
        states[0].values()[key] == value,
        states[0].stored().contains_key(key),
        states[0].stored()[key] == t0,
        !states[0].expires().contains_key(key),
        forall|i: int| 0 <= i < xs.len() ==> is_expire_step(#[trigger] states[i], states[i + 1], key, xs[i]),
    ensures
        states[n].values().contains_key(key),
        states[n].values()[key] == value,
        states[n].stored().contains_key(key),
        states[n].stored()[key] == t0,
        states[n].default_expiry() == states[0].default_expiry(),
        n == 0 ==> !states[n].expires().contains_key(key),
        n > 0 ==> states[n].expires().contains_key(key) && states[n].expires()[key] == xs[n - 1],
    decreases n,
{
    if n > 0 {
        lemma_expire_chain(states, xs, key, value, t0, n - 1);
        assert(is_expire_step(states[n - 1], states[n], key, xs[n - 1]));
    }
}

/// The history of an entry: after `value` is set under `key` at `t0` and then
/// given the expiries `xs` one after the other, a read at `t` gives nothing when
/// the deciding expiry (the last of `xs`, else the default) has passed, and a
/// clone of `value` otherwise. A read that gives nothing leaves the key with no
/// value, stored time or expiry, and it stays so until the key is set again
/// (see `law_absent_key_stays_absent`).
pub proof fn law_entry_history<V: Clone>(
    start: CacheModel<V>,
    states: Seq<CacheModel<V>>,
    xs: Seq<i64>,
    end: CacheModel<V>,
    key: Seq<char>,
    value: V,
    t0: i64,
    t: i64,
    r: Option<V>,
)
    requires
        states.len() == xs.len() + 1,
        is_set_step(start, states[0], key, value, t0),
        forall|i: int| 0 <= i < xs.len() ==> is_expire_step(#[trigger] states[i], states[i + 1], key, xs[i]),
        states.last().read_outcome(end, key, Some(t), r),
    ensures
        (deciding_expiry(xs, start.default_expiry()) matches Some(x) && t - t0 >= x) ==> r is None,
        !(deciding_expiry(xs, start.default_expiry()) matches Some(x) && t - t0 >= x) ==> (r matches Some(w)
            && cloned(value, w)),
        r is None ==> !end.values().contains_key(key) && !end.stored().contains_key(key) && !end.expires().contains_key(
            key,
        ),
{
    let n = xs.len() as int;
    lemma_expire_chain(states, xs, key, value, t0, n);
    assert(states.last() == states[n]);
}


/// An entry lives as long as its expiry says, counted in whole seconds of the
/// system clock: after `set` stores `value` under `key` at the clock reading
/// `c1` and `expire(key, x)` gives the entry its own expiry, a `get` at the
/// clock reading `c2` finds a clone of `value` while fewer than `x` seconds
/// have passed (`x - 1` seconds later, for one) and nothing once `x` have.
pub proof fn law_expiry_counts_clock_seconds<V: Clone>(
    start: CacheModel<V>,
    stored: CacheModel<V>,
    expiring: CacheModel<V>,
    end: CacheModel<V>,
    key: Seq<char>,
    value: V,
    x: i64,
    c1: (u64, u32),
    c2: (u64, u32),
    t1: i64,
    t2: i64,
    r: Option<V>,
)
    requires
        c1.0 <= i64::MAX,
        c2.0 <= i64::MAX,
        seconds_of_clock(Some(c1), Some(t1)),
        start.write_outcome(stored, key, value, Some(t1)),
        is_expire_step(stored, expiring, key, x),
        seconds_of_clock(Some(c2), Some(t2)),
        expiring.read_outcome(end, key, Some(t2), r),
    ensures
        c2.0 - c1.0 < x ==> (r matches Some(w) && cloned(value, w)),
        c2.0 - c1.0 >= x ==> r is None,
{
    assert(t1 as int == c1.0 as int);
    assert(t2 as int == c2.0 as int);
}

} // verus!
