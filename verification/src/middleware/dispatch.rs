//! Dispatcher-side decisions: filtering duplicate requests, and deriving
//! booleans from hashes.

use vstd::prelude::*;

use super::hash_bytes_into;
use std::hash::{DefaultHasher, Hasher};
use std::time::{Duration, Instant};

verus! {

/// Whether two byte slices hold the same bytes.
pub fn bytes_eq(a: &[u8], b: &[u8]) -> (res: bool)
    ensures
        res == (a@ == b@),
{
    if a.len() != b.len() {
        return false;
    }
    let mut i: usize = 0;
    while i < a.len()
        invariant
            a@.len() == b@.len(),
            i <= a@.len(),
            forall|j: int| 0 <= j < i ==> a@[j] == b@[j],
        decreases a@.len() - i,
    {
        if a[i] != b[i] {
            return false;
        }
        i = i + 1;
    }
    assert(a@ =~= b@);
    true
}

/// Time elapsed from `then` to `now`, saturating at zero.
pub open spec fn elapsed(now: u64, then: u64) -> u64 {
    if now >= then {
        (now - then) as u64
    } else {
        0
    }
}

/// The time recorded for `k` in parallel key and time sequences (the last
/// record wins).
pub open spec fn lookup(ks: Seq<Seq<u8>>, ts: Seq<u64>, k: Seq<u8>) -> Option<u64>
    decreases ks.len(),
{
    if ks.len() == 0 || ts.len() == 0 {
        None
    } else if ks.last() == k {
        Some(ts.last())
    } else {
        lookup(ks.drop_last(), ts.drop_last(), k)
    }
}

/// Whether data last recorded at `t` is blocked at time `now`.
pub open spec fn blocks(t: Option<u64>, now: u64, lifetime: u64) -> bool {
    match t {
        Some(t) => elapsed(now, t) <= lifetime,
        None => false,
    }
}

/// The time recorded for `k`, previously `t`, after `data` is processed at
/// `now`: `data` is recorded anew unless it is blocked, and every record at
/// least `lifetime` old is dropped.
pub open spec fn next_time(k: Seq<u8>, data: Seq<u8>, t: Option<u64>, now: u64, lifetime: u64) -> Option<u64> {
    let t2 = if k == data && !blocks(t, now, lifetime) {
        Some(now)
    } else {
        t
    };
    match t2 {
        Some(x) => if elapsed(now, x) < lifetime {
            Some(x)
        } else {
            None
        },
        None => None,
    }
}

#[verifier::external_type_specification]
#[verifier::external_body]
pub struct ExInstant(std::time::Instant);

/// Reads the monotonic clock with `Instant::now`; nothing is claimed of the
/// reading.
#[verifier::external_body]
fn clock_now() -> (res: Instant) {
    Instant::now()
}

/// The time elapsed since `start`, by `Instant::elapsed`; nothing is claimed
/// of it.
#[verifier::external_body]
fn elapsed_since(start: &Instant) -> (res: Duration) {
    start.elapsed()
}

/// The whole nanoseconds in `d`, by `Duration::as_nanos`; nothing is
/// claimed of the count, as `Duration` is opaque here.
#[verifier::external_body]
fn whole_nanos(d: &Duration) -> (res: u128) {
    d.as_nanos()
}

/// The contents of each buffer in `v`.
pub open spec fn byte_views(v: Seq<Vec<u8>>) -> Seq<Seq<u8>> {
    v.map_values(|k: Vec<u8>| k@)
}

/// Appending a record makes it the one found for its key.
proof fn lemma_lookup_push(ks: Seq<Seq<u8>>, ts: Seq<u64>, k0: Seq<u8>, t0: u64)
    requires
        ks.len() == ts.len(),
    ensures
        forall|k: Seq<u8>|
            #[trigger] lookup(ks.push(k0), ts.push(t0), k) == if k == k0 {
                Some(t0)
            } else {
                lookup(ks, ts, k)
            },
{
    assert(ks.push(k0).drop_last() =~= ks);
    assert(ts.push(t0).drop_last() =~= ts);
}

/// A key that no record holds is found nowhere.
proof fn lemma_lookup_absent(ks: Seq<Seq<u8>>, ts: Seq<u64>, k: Seq<u8>)
    requires
        forall|b: int| 0 <= b < ks.len() ==> ks[b] != k,
    ensures
        lookup(ks, ts, k) is None,
    decreases ks.len(),
{
    if ks.len() > 0 && ts.len() > 0 {
        lemma_lookup_absent(ks.drop_last(), ts.drop_last(), k);
    }
}

/// A filter that keeps track of duplicate data, given a specific lifetime.
///
/// Times are nanoseconds on a monotonic clock, counted from the filter's
/// creation.
pub struct DuplicateFilter {
    keys: Vec<Vec<u8>>,
    times: Vec<u64>,
    lifetime: u64,
    epoch: Instant,
}

impl DuplicateFilter {
    /// The recorded keys.
    pub closed spec fn key_seq(&self) -> Seq<Seq<u8>> {
        byte_views(self.keys@)
    }

    /// The time at which `k` was last let through, if it is still recorded.
    pub closed spec fn time_of(&self, k: Seq<u8>) -> Option<u64> {
        lookup(self.key_seq(), self.times@, k)
    }

    /// How long data stays blocked after being let through.
    pub closed spec fn lifetime(&self) -> u64 {
        self.lifetime
    }

    /// Well-formedness: one time per key, and no key twice.
    pub closed spec fn wf(&self) -> bool {
        &&& self.keys@.len() == self.times@.len()
        &&& forall|i: int, j: int|
            0 <= i < j < self.keys@.len() ==> #[trigger] self.keys@[i]@ != #[trigger] self.keys@[j]@
    }

    /// Create a filter whose records live for `retries` timeouts of
    /// `timeout_ns` nanoseconds.
    pub fn new(timeout_ns: u64, retries: u8) -> (res: Self)
        requires
            timeout_ns * retries <= u64::MAX,
        ensures
            res.wf(),
            res.lifetime() == timeout_ns * retries,
            forall|k: Seq<u8>| res.time_of(k) is None,
    {
        let res = Self {
            keys: Vec::new(),
            times: Vec::new(),
            lifetime: timeout_ns * (retries as u64),
            epoch: clock_now(),
        };
        assert forall|k: Seq<u8>| res.time_of(k) is None by {
            assert(res.key_seq().len() == 0);
        }
        res
    }

    /// Nanoseconds since the filter was made, read from the monotonic clock
    /// (saturating at `u64::MAX`, some 584 years).
    fn clock_nanos(&self) -> u64 {
        let ns = whole_nanos(&elapsed_since(&self.epoch));
        if ns > u64::MAX as u128 {
            u64::MAX
        } else {
            ns as u64
        }
    }

    /// Process the data at the current time and return it if it is not a
    /// duplicate (see [`DuplicateFilter::process_at`]).
    pub fn process(&mut self, data: &[u8]) -> (res: Option<Vec<u8>>)
        requires
            old(self).wf(),
        ensures
            final(self).wf(),
            final(self).lifetime() == old(self).lifetime(),
            res matches Some(d) ==> d@ == data@,
            old(self).time_of(data@) is None ==> res is Some,
            exists|now: u64|
                {
                    &&& (res is None <==> blocks(old(self).time_of(data@), now, old(self).lifetime()))
                    &&& forall|k: Seq<u8>|
                        #[trigger] final(self).time_of(k) == next_time(
                            k,
                            data@,
                            old(self).time_of(k),
                            now,
                            old(self).lifetime(),
                        )
                },
    {
        let now = self.clock_nanos();
        self.process_at(data, now)
    }

    /// Process the data at time `now` and return it if it is not a duplicate:
    /// data let through less than (or exactly) `lifetime` ago is blocked.
    /// Records at least `lifetime` old are then dropped.
    pub fn process_at(&mut self, data: &[u8], now: u64) -> (res: Option<Vec<u8>>)
        requires
            old(self).wf(),
        ensures
            final(self).wf(),
            final(self).lifetime() == old(self).lifetime(),
            res is None <==> blocks(old(self).time_of(data@), now, old(self).lifetime()),
            res matches Some(d) ==> d@ == data@,
            forall|k: Seq<u8>|
                #[trigger] final(self).time_of(k) == next_time(
                    k,
                    data@,
                    old(self).time_of(k),
                    now,
                    old(self).lifetime(),
                ),
    {
        let ghost old_ks = self.key_seq();
        let ghost old_ts = self.times@;
        let lifetime = self.lifetime;
        let mut new_keys: Vec<Vec<u8>> = Vec::new();
        let mut new_times: Vec<u64> = Vec::new();
        let mut found = false;
        let mut block = false;
        let n = self.keys.len();
        let mut i: usize = 0;
        proof {
            assert(byte_views(new_keys@) =~= Seq::<Seq<u8>>::empty());
        }
        while i < n
            invariant
                n == self.keys@.len(),
                self.wf(),
                old_ks == self.key_seq(),
                old_ts == self.times@,
                lifetime == self.lifetime,
                i <= n,
                new_keys@.len() == new_times@.len(),
                forall|a: int, b: int|
                    0 <= a < b < new_keys@.len() ==> #[trigger] new_keys@[a]@
                        != #[trigger] new_keys@[b]@,
                forall|a: int|
                    #![trigger new_keys@[a]]
                    0 <= a < new_keys@.len() ==> exists|b: int|
                        #![trigger old_ks[b]]
                        0 <= b < i && new_keys@[a]@ == old_ks[b],
                found <==> exists|b: int| 0 <= b < i && old_ks[b] == data@,
                found ==> block == blocks(
                    lookup(old_ks.subrange(0, i as int), old_ts.subrange(0, i as int), data@),
                    now,
                    lifetime,
                ),
                !found ==> !block,
                !found ==> lookup(old_ks.subrange(0, i as int), old_ts.subrange(0, i as int), data@) is None,
                forall|k: Seq<u8>|
                    #[trigger] lookup(byte_views(new_keys@), new_times@, k)
                        == if k == data@ && !found {
                        None
                    } else {
                        next_time(
                            k,
                            data@,
                            lookup(old_ks.subrange(0, i as int), old_ts.subrange(0, i as int), k),
                            now,
                            lifetime,
                        )
                    },
            decreases n - i,
        {
            let ghost prev_keys = byte_views(new_keys@);
            let ghost prev_times = new_times@;
            let ghost prev_found = found;
            let key = &self.keys[i];
            let t = self.times[i];
            let is_data = bytes_eq(key.as_slice(), data);
            let mut t2 = t;
            if is_data {
                found = true;
                block = now < t || now - t <= lifetime;
                if !block {
                    t2 = now;
                }
            }
            let keep = if now < t2 { 0 < lifetime } else { now - t2 < lifetime };
            proof {
                assert(old_ks[i as int] == key@);
                assert(old_ks.subrange(0, i + 1) =~= old_ks.subrange(0, i as int).push(key@));
                assert(old_ts.subrange(0, i + 1) =~= old_ts.subrange(0, i as int).push(t));
                lemma_lookup_push(old_ks.subrange(0, i as int), old_ts.subrange(0, i as int), key@, t);
                lemma_lookup_absent(old_ks.subrange(0, i as int), old_ts.subrange(0, i as int), key@);
                if is_data {
                    assert(!prev_found) by {
                        if prev_found {
                            let b = choose|b: int| 0 <= b < i && old_ks[b] == data@;
                            assert(self.keys@[b]@ == self.keys@[i as int]@);
                        }
                    }
                }
            }
            if keep {
                let mut copy: Vec<u8> = Vec::new();
                crate::ser_de::extend_bytes(&mut copy, key.as_slice());
                proof {
                    assert(copy@ =~= key@);
                    assert forall|a: int| 0 <= a < new_keys@.len() implies new_keys@[a]@ != copy@ by {
                        let b = choose|b: int| #![trigger old_ks[b]] 0 <= b < i && new_keys@[a]@ == old_ks[b];
                        assert(self.keys@[b]@ != self.keys@[i as int]@);
                    }
                }
                new_keys.push(copy);
                new_times.push(t2);
                proof {
                    assert(byte_views(new_keys@) =~= prev_keys.push(key@));
                    lemma_lookup_push(prev_keys, prev_times, key@, t2);
                }
            }
            i = i + 1;
            proof {
                assert forall|a: int| #![trigger new_keys@[a]] 0 <= a < new_keys@.len() implies exists|b: int|
                    #![trigger old_ks[b]]
                    0 <= b < i && new_keys@[a]@ == old_ks[b] by {
                    if a < prev_keys.len() {
                        assert(new_keys@[a]@ == prev_keys[a]);
                    } else {
                        assert(old_ks[i - 1] == new_keys@[a]@);
                    }
                }
                if is_data {
                    assert(old_ks[i - 1] == data@);
                }
            }
        }
        proof {
            assert(old_ks.subrange(0, n as int) =~= old_ks);
            assert(old_ts.subrange(0, n as int) =~= old_ts);
        }
        if !found && lifetime > 0 {
            let ghost prev_keys = byte_views(new_keys@);
            let ghost prev_times = new_times@;
            let mut copy: Vec<u8> = Vec::new();
            crate::ser_de::extend_bytes(&mut copy, data);
            proof {
                assert(copy@ =~= data@);
                assert forall|a: int| 0 <= a < new_keys@.len() implies new_keys@[a]@ != copy@ by {
                    let b = choose|b: int| #![trigger old_ks[b]] 0 <= b < n && new_keys@[a]@ == old_ks[b];
                }
            }
            new_keys.push(copy);
            new_times.push(now);
            proof {
                assert(byte_views(new_keys@) =~= prev_keys.push(data@));
                lemma_lookup_push(prev_keys, prev_times, data@, now);
            }
        }
        self.keys = new_keys;
        self.times = new_times;
        if block {
            None
        } else {
            let mut out: Vec<u8> = Vec::new();
            crate::ser_de::extend_bytes(&mut out, data);
            assert(out@ =~= data@);
            Some(out)
        }
    }
}

/// Data let through at `t1` is blocked when it comes again at any `t2` no
/// more than the filter's lifetime later (when that lifetime is positive).
pub proof fn lemma_repeat_within_lifetime_blocked(
    data: Seq<u8>,
    t_prev: Option<u64>,
    t1: u64,
    t2: u64,
    lifetime: u64,
)
    requires
        !blocks(t_prev, t1, lifetime),
        0 < lifetime,
        t1 <= t2,
        t2 - t1 <= lifetime,
    ensures
        blocks(next_time(data, data, t_prev, t1, lifetime), t2, lifetime),
{
}

/// Data is let through again once more than the lifetime has passed since
/// it was last let through.
pub proof fn lemma_pass_after_lifetime(t: u64, now: u64, lifetime: u64)
    requires
        t <= now,
        now - t > lifetime,
    ensures
        !blocks(Some(t), now, lifetime),
{
}

/// Processing data leaves the records of other data as they were, but for
/// the pruning of those at least `lifetime` old.
pub proof fn lemma_other_records_only_pruned(
    k: Seq<u8>,
    data: Seq<u8>,
    t: Option<u64>,
    now: u64,
    lifetime: u64,
)
    requires
        k != data,
    ensures
        next_time(k, data, t, now, lifetime) == match t {
            Some(x) => if elapsed(now, x) < lifetime {
                Some(x)
            } else {
                None
            },
            None => None,
        },
{
}

/// The boolean derived from a hash value: bit `value & 31` xor bit
/// `63 - ((value >> 56) & 31)` of the value.
pub open spec fn bool_from_hash_spec(value: u64) -> bool {
    let first = value & 0x1f;
    let last = (value >> 56u64) & 0x1f;
    ((value >> first) & 1) ^ ((value >> (63 - last) as u64) & 1) != 0
}

/// Derives a boolean from a hash value in a deterministic way.
pub fn bool_from_hash(value: u64) -> (res: bool)
    ensures
        res == bool_from_hash_spec(value),
{
    let first = value & 0x1f;
    let last = (value >> 56u64) & 0x1f;
    assert(last <= 0x1f && first <= 0x1f) by (bit_vector)
        requires
            last == (value >> 56u64) & 0x1f,
            first == value & 0x1f,
    ;
    ((value >> first) & 1) ^ ((value >> (63 - last)) & 1) != 0
}

/// Hash an item's bytes and derive a boolean from the hash in a deterministic way
/// (see [`bool_from_hash`]). The hash itself is std's default hasher, whose output
/// no contract here states, so neither is the result.
pub fn hash_to_boolean(item: &[u8]) -> (res: bool) {
    let mut state = DefaultHasher::new();
    hash_bytes_into(item, &mut state);
    bool_from_hash(state.finish())
}

} // verus!
