//! The metadata values the cache serves, and the typed slot operations.
//!
//! Seven independent slots exist: the crate list, three toolchain-channel
//! versions and three tool versions. Each value type carries a canonical
//! encoding whose fingerprint backs conditional fetches.

use crate::cache::{fingerprint_of, simple_etag, CacheSlot, Changed, Entry};
use vstd::prelude::*;
use vstd::string::StringExecFns;

verus! {

/// Version of one toolchain component: release, commit hash, commit date.
pub struct MetaVersionResponse {
    pub version: String,
    pub hash: String,
    pub date: String,
}

impl Clone for MetaVersionResponse {
    /// An independent copy, equal to the original.
    fn clone(&self) -> (r: Self)
        ensures
            r == *self,
    {
        let r = MetaVersionResponse {
            version: self.version.clone(),
            hash: self.hash.clone(),
            date: self.date.clone(),
        };
        proof {
            assert(r == *self);
        }
        r
    }
}

/// One entry of the package list.
pub struct CrateInformation {
    pub name: String,
    pub version: String,
    pub id: String,
}

impl Clone for CrateInformation {
    /// An independent copy, equal to the original.
    fn clone(&self) -> (r: Self)
        ensures
            r == *self,
    {
        let r = CrateInformation {
            name: self.name.clone(),
            version: self.version.clone(),
            id: self.id.clone(),
        };
        proof {
            assert(r == *self);
        }
        r
    }
}

/// The package list of the execution backend.
pub struct MetaCratesResponse {
    pub crates: Vec<CrateInformation>,
}

impl Clone for MetaCratesResponse {
    /// An independent copy, holding the same entries in the same order.
    fn clone(&self) -> (r: Self)
        ensures
            r.crates@ == self.crates@,
    {
        let mut v: Vec<CrateInformation> = Vec::new();
        let mut i: usize = 0;
        while i < self.crates.len()
            invariant
                i <= self.crates@.len(),
                v@.len() == i,
                forall|j: int| 0 <= j < i ==> v@[j] == self.crates@[j],
            decreases self.crates@.len() - i,
        {
            let cr = &self.crates[i];
            v.push(cr.clone());
            i = i + 1;
        }
        proof {
            assert(v@ =~= self.crates@);
        }
        MetaCratesResponse { crates: v }
    }
}

/// Canonical encoding of a version response, the input of its fingerprint.
pub open spec fn version_encoding(v: MetaVersionResponse) -> Seq<char> {
    v.version@ + "\n"@ + v.hash@ + "\n"@ + v.date@
}

/// Canonical encoding of one package-list entry.
pub open spec fn crate_encoding(c: CrateInformation) -> Seq<char> {
    c.name@ + "\n"@ + c.version@ + "\n"@ + c.id@ + "\n"@
}

/// Canonical encoding of the package list.
pub open spec fn crates_encoding(s: Seq<CrateInformation>) -> Seq<char>
    decreases s.len(),
{
    if s.len() == 0 {
        Seq::empty()
    } else {
        crates_encoding(s.drop_last()) + crate_encoding(s.last())
    }
}

/// The fingerprint of a version response.
pub fn version_fingerprint(v: &MetaVersionResponse) -> (r: u64)
    ensures
        r == fingerprint_of(version_encoding(*v)),
{
    let mut enc = String::new();
    enc.append(v.version.as_str());
    enc.append("\n");
    enc.append(v.hash.as_str());
    enc.append("\n");
    enc.append(v.date.as_str());
    proof {
        assert(enc@ =~= version_encoding(*v));
    }
    simple_etag(enc.as_str())
}

/// The fingerprint of the package list.
pub fn crates_fingerprint(c: &MetaCratesResponse) -> (r: u64)
    ensures
        r == fingerprint_of(crates_encoding(c.crates@)),
{
    let mut enc = String::new();
    let mut i: usize = 0;
    proof {
        assert(c.crates@.take(0).len() == 0);
    }
    while i < c.crates.len()
        invariant
            i <= c.crates@.len(),
            enc@ == crates_encoding(c.crates@.take(i as int)),
        decreases c.crates@.len() - i,
    {
        let cr = &c.crates[i];
        enc.append(cr.name.as_str());
        enc.append("\n");
        enc.append(cr.version.as_str());
        enc.append("\n");
        enc.append(cr.id.as_str());
        enc.append("\n");
        proof {
            assert(c.crates@.take(i as int + 1).drop_last() =~= c.crates@.take(i as int));
            assert(c.crates@.take(i as int + 1).last() == c.crates@[i as int]);
            assert(enc@ =~= crates_encoding(c.crates@.take(i as int + 1)));
        }
        i = i + 1;
    }
    proof {
        assert(c.crates@.take(c.crates@.len() as int) =~= c.crates@);
    }
    simple_etag(enc.as_str())
}

/// Installs a regenerated version value, fingerprinting its canonical
/// encoding.
pub fn install_version(slot: &mut CacheSlot<MetaVersionResponse>, value: MetaVersionResponse, now: u64)
    ensures
        final(slot).spec_entry() == Some(
            Entry {
                value,
                created_at: now,
                fingerprint: fingerprint_of(version_encoding(value)),
            },
        ),
{
    let fp = version_fingerprint(&value);
    slot.install(value, fp, now);
}

/// Installs a regenerated package list, fingerprinting its canonical
/// encoding.
pub fn install_crates(slot: &mut CacheSlot<MetaCratesResponse>, value: MetaCratesResponse, now: u64)
    ensures
        final(slot).spec_entry() == Some(
            Entry {
                value,
                created_at: now,
                fingerprint: fingerprint_of(crates_encoding(value.crates@)),
            },
        ),
{
    let fp = crates_fingerprint(&value);
    slot.install(value, fp, now);
}

/// Conditional-fetch response from a version slot: `Unchanged` when the
/// client's fingerprint matches the entry's, otherwise an independent copy
/// of the value with its current fingerprint.
pub fn respond_version(slot: &CacheSlot<MetaVersionResponse>, client: Option<u64>) -> (r: Changed<
    MetaVersionResponse,
>)
    requires
        slot.spec_entry() is Some,
    ensures
        slot.spec_fp_matches(client) ==> r is Unchanged,
        !slot.spec_fp_matches(client) ==> (slot.spec_entry() matches Some(e) && (
        r matches Changed::Changed(v, fp) && v == e.value && fp == e.fingerprint)),
{
    if slot.fingerprint_matches(client) {
        Changed::Unchanged
    } else {
        Changed::Changed(slot.entry_value().clone(), slot.entry_fingerprint())
    }
}

/// Conditional-fetch response from the crate-list slot: `Unchanged` when the
/// client's fingerprint matches the entry's, otherwise an independent copy
/// of the list with its current fingerprint.
pub fn respond_crates(slot: &CacheSlot<MetaCratesResponse>, client: Option<u64>) -> (r: Changed<
    MetaCratesResponse,
>)
    requires
        slot.spec_entry() is Some,
    ensures
        slot.spec_fp_matches(client) ==> r is Unchanged,
        !slot.spec_fp_matches(client) ==> (slot.spec_entry() matches Some(e) && (
        r matches Changed::Changed(v, fp) && v.crates@ == e.value.crates@ && fp == e.fingerprint)),
{
    if slot.fingerprint_matches(client) {
        Changed::Unchanged
    } else {
        Changed::Changed(slot.entry_value().clone(), slot.entry_fingerprint())
    }
}

/// The seven independent cache slots of the service. Regeneration of one
/// slot never blocks another: the caller guards each slot with its own
/// lock.
pub struct SandboxCache {
    pub crates: CacheSlot<MetaCratesResponse>,
    pub version_stable: CacheSlot<MetaVersionResponse>,
    pub version_beta: CacheSlot<MetaVersionResponse>,
    pub version_nightly: CacheSlot<MetaVersionResponse>,
    pub version_rustfmt: CacheSlot<MetaVersionResponse>,
    pub version_clippy: CacheSlot<MetaVersionResponse>,
    pub version_miri: CacheSlot<MetaVersionResponse>,
}

impl SandboxCache {
    /// A cache whose slots are all empty; entries appear lazily on the
    /// first access of each slot.
    pub fn new() -> (r: Self)
        ensures
            r.crates.spec_entry() is None,
            r.version_stable.spec_entry() is None,
            r.version_beta.spec_entry() is None,
            r.version_nightly.spec_entry() is None,
            r.version_rustfmt.spec_entry() is None,
            r.version_clippy.spec_entry() is None,
            r.version_miri.spec_entry() is None,
    {
        SandboxCache {
            crates: CacheSlot::new(),
            version_stable: CacheSlot::new(),
            version_beta: CacheSlot::new(),
            version_nightly: CacheSlot::new(),
            version_rustfmt: CacheSlot::new(),
            version_clippy: CacheSlot::new(),
            version_miri: CacheSlot::new(),
        }
    }
}

} // verus!
