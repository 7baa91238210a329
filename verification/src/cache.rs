//! Metadata cache slots.
//!
//! One slot exists per metadata resource. A slot holds at most one entry:
//! the value, the time it was created, and a fingerprint of the value used
//! for conditional fetches. A slot is fresh within the TTL of its entry's
//! creation and must not be served as-is once stale. The caller guards each
//! slot with its own cooperative lock and drives regeneration through
//! `needs_regeneration` and `apply_regeneration`; the decisions these
//! functions make — when to invoke the provider, what a failure leaves
//! behind, what a conditional fetch returns — are all stated and proved
//! here.

use crate::error::Error;
use vstd::prelude::*;
use vstd::string::StrSliceExecFns;

verus! {

/// Seed of the fingerprint computation.
pub const FINGERPRINT_SEED: u64 = 0xcbf29ce484222325;

/// Multiplier of the fingerprint computation.
pub const FINGERPRINT_PRIME: u64 = 0x100000001b3;

/// One step of the fingerprint: mix one character into the accumulator.
pub open spec fn fingerprint_step(h: u64, c: char) -> u64 {
    (((h ^ (c as u64)) as nat * FINGERPRINT_PRIME as nat) % 0x10000000000000000nat) as u64
}

/// The fingerprint of a character sequence: an opaque, deterministic token
/// derived from a value's canonical encoding, used only for equality
/// comparison with a caller-supplied token. Not a cryptographic digest.
pub open spec fn fingerprint_of(s: Seq<char>) -> u64
    decreases s.len(),
{
    if s.len() == 0 {
        FINGERPRINT_SEED
    } else {
        fingerprint_step(fingerprint_of(s.drop_last()), s.last())
    }
}

/// Computes `fingerprint_of` over the characters of a string slice.
pub fn simple_etag(data: &str) -> (r: u64)
    ensures
        r == fingerprint_of(data@),
{
    let n: usize = data.unicode_len();
    let mut h: u64 = FINGERPRINT_SEED;
    let mut i: usize = 0;
    proof {
        assert(data@.take(0).len() == 0);
    }
    while i < n
        invariant
            n == data@.len(),
            i <= n,
            h == fingerprint_of(data@.take(i as int)),
        decreases n - i,
    {
        let c = data.get_char(i);
        h = (h ^ (c as u64)).wrapping_mul(FINGERPRINT_PRIME);
        proof {
            assert(data@.take(i as int + 1).drop_last() =~= data@.take(i as int));
            assert(data@.take(i as int + 1).last() == data@[i as int]);
        }
        i = i + 1;
    }
    proof {
        assert(data@.take(n as int) =~= data@);
    }
    h
}

/// The metadata resources the service caches, one slot each.
#[derive(Clone, Copy, PartialEq, Eq, Structural, Debug)]
pub enum Resource {
    Crates,
    VersionStable,
    VersionBeta,
    VersionNightly,
    VersionRustfmt,
    VersionClippy,
    VersionMiri,
}

/// One cached value with the time it was created and its fingerprint.
pub struct Entry<T> {
    pub value: T,
    pub created_at: u64,
    pub fingerprint: u64,
}

/// One cache slot: empty, or holding exactly one entry. Entries are created
/// lazily on first access and replaced wholesale on each successful
/// regeneration; they are never destroyed, only superseded.
pub struct CacheSlot<T> {
    entry: Option<Entry<T>>,
}

/// Outcome of a conditional fetch: the full value with its fingerprint, or
/// the bare marker that the client's copy is current.
pub enum Changed<T> {
    Unchanged,
    Changed(T, u64),
}

impl<T> Changed<T> {
    /// Maps the carried value, keeping the fingerprint and the `Unchanged`
    /// marker as they are.
    pub fn map<U, F: FnOnce(T) -> U>(self, f: F) -> (r: Changed<U>)
        requires
            self matches Changed::Changed(v, fp) ==> f.requires((v,)),
        ensures
            self is Unchanged ==> r is Unchanged,
            self matches Changed::Changed(v, fp) ==> (r matches Changed::Changed(u, fp2)
                && fp2 == fp && f.ensures((v,), u)),
    {
        match self {
            Changed::Unchanged => Changed::Unchanged,
            Changed::Changed(v, fp) => Changed::Changed(f(v), fp),
        }
    }
}

impl<T> CacheSlot<T> {
    /// The entry the slot holds, if any.
    pub closed spec fn spec_entry(&self) -> Option<Entry<T>> {
        self.entry
    }

    /// A slot is fresh at `now` when it holds an entry created no more than
    /// `ttl` before `now`.
    pub open spec fn spec_fresh(&self, now: u64, ttl: u64) -> bool {
        match self.spec_entry() {
            None => false,
            Some(e) => e.created_at <= now && now - e.created_at <= ttl,
        }
    }

    /// Whether a caller-supplied fingerprint equals the entry's.
    pub open spec fn spec_fp_matches(&self, client: Option<u64>) -> bool {
        match self.spec_entry() {
            None => false,
            Some(e) => client == Some(e.fingerprint),
        }
    }

    /// An empty slot.
    pub fn new() -> (r: Self)
        ensures
            r.spec_entry() is None,
    {
        CacheSlot { entry: None }
    }

    /// Whether the slot holds an entry at all.
    pub fn has_entry(&self) -> (r: bool)
        ensures
            r == (self.spec_entry() is Some),
    {
        match &self.entry {
            None => false,
            Some(_) => true,
        }
    }

    /// The staleness check made under the slot's lock: regeneration is
    /// required exactly when the slot is not fresh.
    pub fn needs_regeneration(&self, now: u64, ttl: u64) -> (r: bool)
        ensures
            r == !self.spec_fresh(now, ttl),
    {
        match &self.entry {
            None => true,
            Some(e) => !(e.created_at <= now && now - e.created_at <= ttl),
        }
    }

    /// Installs a freshly regenerated entry, replacing any previous one
    /// wholesale.
    pub fn install(&mut self, value: T, fingerprint: u64, now: u64)
        ensures
            final(self).spec_entry() == Some(Entry { value, created_at: now, fingerprint }),
    {
        self.entry = Some(Entry { value, created_at: now, fingerprint });
    }

    /// Applies the outcome of one regeneration attempt. Success replaces the
    /// entry; failure leaves the slot exactly as it was — stale or empty —
    /// so failures are never cached, and hands the error back to the caller.
    pub fn apply_regeneration(&mut self, outcome: Result<(T, u64), Error>, now: u64) -> (r: Result<
        (),
        Error,
    >)
        ensures
            match outcome {
                Ok(vf) => r is Ok && final(self).spec_entry() == Some(
                    Entry { value: vf.0, created_at: now, fingerprint: vf.1 },
                ),
                Err(e) => *final(self) == *old(self) && r == Err::<(), Error>(e),
            },
    {
        match outcome {
            Ok((value, fingerprint)) => {
                self.entry = Some(Entry { value, created_at: now, fingerprint });
                Ok(())
            },
            Err(e) => Err(e),
        }
    }

    /// A borrow of the held value; the caller copies it before releasing the
    /// slot's lock.
    pub fn entry_value(&self) -> (r: &T)
        requires
            self.spec_entry() is Some,
        ensures
            self.spec_entry() matches Some(e) && *r == e.value,
    {
        match &self.entry {
            Some(e) => &e.value,
            None => vstd::pervasive::unreached(),
        }
    }

    /// The held entry's fingerprint.
    pub fn entry_fingerprint(&self) -> (r: u64)
        requires
            self.spec_entry() is Some,
        ensures
            self.spec_entry() matches Some(e) && r == e.fingerprint,
    {
        match &self.entry {
            Some(e) => e.fingerprint,
            None => vstd::pervasive::unreached(),
        }
    }

    /// Whether the caller-supplied fingerprint equals the entry's.
    pub fn fingerprint_matches(&self, client: Option<u64>) -> (r: bool)
        requires
            self.spec_entry() is Some,
        ensures
            r == self.spec_fp_matches(client),
    {
        match &self.entry {
            Some(e) => match client {
                Some(c) => c == e.fingerprint,
                None => false,
            },
            None => vstd::pervasive::unreached(),
        }
    }
}

/// TTL freshness law, which is also the single-flight re-check: after a
/// successful regeneration installed an entry at time `t`, any request at
/// `now` within the TTL finds the slot fresh, so `needs_regeneration`
/// returns false and no provider invocation is planned; the slot still
/// hands out exactly the installed value and fingerprint. In particular a
/// caller that waited for the slot's lock while another holder regenerated
/// re-checks staleness, plans no second invocation, and is served from the
/// one installed entry.
pub proof fn lemma_ttl_freshness<T>(
    slot: CacheSlot<T>,
    value: T,
    fingerprint: u64,
    t: u64,
    now: u64,
    ttl: u64,
)
    requires
        slot.spec_entry() == Some(Entry { value, created_at: t, fingerprint }),
        t <= now,
        now - t <= ttl,
    ensures
        slot.spec_fresh(now, ttl),
        slot.spec_entry() matches Some(e) && e.value == value && e.fingerprint == fingerprint,
{
}

/// Failure non-caching law: a failed regeneration leaves the slot exactly
/// as it was (`apply_regeneration`), and a slot that was stale or empty
/// stays so at any later time, so the next access — even immediately after
/// — attempts regeneration again rather than replaying the failure from a
/// cached state.
pub proof fn lemma_failure_non_caching<T>(slot: CacheSlot<T>, now: u64, later: u64, ttl: u64)
    requires
        !slot.spec_fresh(now, ttl),
        slot.spec_entry() matches Some(e) ==> e.created_at <= now,
        now <= later,
    ensures
        !slot.spec_fresh(later, ttl),
{
}

/// Conditional fetch law: while the entry installed by a prior fetch is in
/// place, presenting its fingerprint matches, so the response is
/// `Unchanged`; presenting any other token, or none, does not match, so the
/// full value is returned with its current fingerprint.
pub proof fn lemma_conditional_fetch<T>(slot: CacheSlot<T>, f: u64)
    requires
        slot.spec_entry() matches Some(e) && e.fingerprint == f,
    ensures
        slot.spec_fp_matches(Some(f)),
        forall|c: Option<u64>| c != Some(f) ==> !slot.spec_fp_matches(c),
{
}

} // verus!
