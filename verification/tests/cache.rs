use playground_core::cache::{
    simple_etag, CacheSlot, Changed, Resource, FINGERPRINT_PRIME, FINGERPRINT_SEED,
};
use playground_core::error::Error;
use playground_core::meta::{
    crates_fingerprint, install_crates, install_version, respond_crates, respond_version,
    CrateInformation, MetaCratesResponse, MetaVersionResponse, SandboxCache,
};

fn version(v: &str, h: &str, d: &str) -> MetaVersionResponse {
    MetaVersionResponse { version: v.to_string(), hash: h.to_string(), date: d.to_string() }
}

#[test]
fn empty_slot_needs_regeneration() {
    let slot: CacheSlot<MetaVersionResponse> = CacheSlot::new();
    assert!(!slot.has_entry());
    assert!(slot.needs_regeneration(0, 1000));
    assert!(slot.needs_regeneration(5000, 1000));
}

#[test]
fn fresh_slot_serves_installed_value_without_regeneration() {
    let mut slot = CacheSlot::new();
    install_version(&mut slot, version("1.81.0", "abcd", "2024-09-05"), 100);
    // Within the TTL window the slot is fresh and the identical value is served.
    assert!(!slot.needs_regeneration(100, 1000));
    assert!(!slot.needs_regeneration(1100, 1000));
    let fp = slot.entry_fingerprint();
    match respond_version(&slot, None) {
        Changed::Changed(v, got_fp) => {
            assert_eq!(v.version, "1.81.0");
            assert_eq!(v.hash, "abcd");
            assert_eq!(v.date, "2024-09-05");
            assert_eq!(got_fp, fp);
        }
        Changed::Unchanged => panic!("expected the full value"),
    }
}

#[test]
fn single_flight_recheck_prevents_second_invocation() {
    // Two callers need the same cold slot. The first holds the slot's lock,
    // sees it stale and regenerates; the second, queued on the same lock,
    // re-checks staleness once it holds the lock and invokes nothing.
    let mut slot = CacheSlot::new();
    let mut provider_calls = 0;
    if slot.needs_regeneration(0, 1000) {
        provider_calls += 1;
        install_version(&mut slot, version("1.81.0", "abcd", "2024-09-05"), 0);
    }
    if slot.needs_regeneration(1, 1000) {
        provider_calls += 1;
        install_version(&mut slot, version("other", "other", "other"), 1);
    }
    assert_eq!(provider_calls, 1);
    // Both callers are served from the one installed entry.
    match respond_version(&slot, None) {
        Changed::Changed(v, _) => assert_eq!(v.version, "1.81.0"),
        Changed::Unchanged => panic!("expected the full value"),
    }
}

#[test]
fn stale_slot_needs_regeneration_again() {
    let mut slot = CacheSlot::new();
    install_version(&mut slot, version("1.81.0", "abcd", "2024-09-05"), 100);
    assert!(slot.needs_regeneration(1101, 1000));
}

#[test]
fn failed_regeneration_is_not_cached() {
    let mut slot: CacheSlot<MetaVersionResponse> = CacheSlot::new();
    let err = Error::MetadataFetchFailed(Resource::VersionStable);
    let r = slot.apply_regeneration(Err(err), 50);
    assert_eq!(r, Err(err));
    // The slot is exactly as it was: empty, so the next call attempts
    // regeneration again instead of replaying the failure.
    assert!(!slot.has_entry());
    assert!(slot.needs_regeneration(50, 1000));
    assert!(slot.needs_regeneration(51, 1000));
}

#[test]
fn failed_regeneration_retains_stale_value() {
    let mut slot = CacheSlot::new();
    install_version(&mut slot, version("1.80.0", "aaaa", "2024-07-25"), 0);
    assert!(slot.needs_regeneration(5000, 1000));
    let err = Error::MetadataFetchFailed(Resource::VersionStable);
    let r = slot.apply_regeneration(Err(err), 5000);
    assert_eq!(r, Err(err));
    // The stale entry is retained and the slot still wants regeneration.
    assert!(slot.has_entry());
    assert_eq!(slot.entry_value().version, "1.80.0");
    assert!(slot.needs_regeneration(5000, 1000));
}

#[test]
fn successful_regeneration_replaces_entry_wholesale() {
    let mut slot = CacheSlot::new();
    install_version(&mut slot, version("1.80.0", "aaaa", "2024-07-25"), 0);
    let old_fp = slot.entry_fingerprint();
    let newer = version("1.81.0", "bbbb", "2024-09-05");
    let fp = playground_core::meta::version_fingerprint(&newer);
    let r = slot.apply_regeneration(Ok((newer, fp)), 5000);
    assert!(r.is_ok());
    assert_eq!(slot.entry_value().version, "1.81.0");
    assert_eq!(slot.entry_fingerprint(), fp);
    assert_ne!(slot.entry_fingerprint(), old_fp);
    assert!(!slot.needs_regeneration(5500, 1000));
}

#[test]
fn conditional_fetch_matching_fingerprint_is_unchanged() {
    let mut slot = CacheSlot::new();
    install_version(&mut slot, version("1.81.0", "abcd", "2024-09-05"), 0);
    // A prior fetch returned the value with its fingerprint.
    let fp = match respond_version(&slot, None) {
        Changed::Changed(_, fp) => fp,
        Changed::Unchanged => panic!("expected the full value"),
    };
    // Presenting that fingerprint with no intervening regeneration.
    assert!(matches!(respond_version(&slot, Some(fp)), Changed::Unchanged));
    // Presenting any other token returns the full value and the fingerprint.
    match respond_version(&slot, Some(fp.wrapping_add(1))) {
        Changed::Changed(v, got) => {
            assert_eq!(v.version, "1.81.0");
            assert_eq!(got, fp);
        }
        Changed::Unchanged => panic!("expected the full value"),
    }
}

#[test]
fn conditional_fetch_crates_slot() {
    let mut slot = CacheSlot::new();
    let list = MetaCratesResponse {
        crates: vec![CrateInformation {
            name: "serde".to_string(),
            version: "1.0.0".to_string(),
            id: "serde".to_string(),
        }],
    };
    let fp = crates_fingerprint(&list);
    install_crates(&mut slot, list, 0);
    assert_eq!(slot.entry_fingerprint(), fp);
    assert!(matches!(respond_crates(&slot, Some(fp)), Changed::Unchanged));
    match respond_crates(&slot, None) {
        Changed::Changed(v, got) => {
            assert_eq!(v.crates.len(), 1);
            assert_eq!(v.crates[0].name, "serde");
            assert_eq!(v.crates[0].version, "1.0.0");
            assert_eq!(got, fp);
        }
        Changed::Unchanged => panic!("expected the full value"),
    }
}

#[test]
fn simple_etag_exact_values() {
    // The empty input yields the seed; one character mixes in once.
    assert_eq!(simple_etag(""), FINGERPRINT_SEED);
    let expected = (FINGERPRINT_SEED ^ 'a' as u64).wrapping_mul(FINGERPRINT_PRIME);
    assert_eq!(simple_etag("a"), expected);
    let expected_ab = (expected ^ 'b' as u64).wrapping_mul(FINGERPRINT_PRIME);
    assert_eq!(simple_etag("ab"), expected_ab);
}

#[test]
fn fingerprints_are_deterministic() {
    let a = version("1.81.0", "abcd", "2024-09-05");
    let b = version("1.81.0", "abcd", "2024-09-05");
    assert_eq!(
        playground_core::meta::version_fingerprint(&a),
        playground_core::meta::version_fingerprint(&b)
    );
    // The fingerprint is the etag of the canonical encoding.
    assert_eq!(
        playground_core::meta::version_fingerprint(&a),
        simple_etag("1.81.0\nabcd\n2024-09-05")
    );
}

#[test]
fn changed_map_keeps_fingerprint_and_marker() {
    let c: Changed<u64> = Changed::Changed(41, 7);
    match c.map(|v| v + 1) {
        Changed::Changed(v, fp) => {
            assert_eq!(v, 42);
            assert_eq!(fp, 7);
        }
        Changed::Unchanged => panic!("expected a value"),
    }
    let u: Changed<u64> = Changed::Unchanged;
    assert!(matches!(u.map(|v| v + 1), Changed::Unchanged));
}

#[test]
fn sandbox_cache_starts_with_all_slots_empty() {
    let cache = SandboxCache::new();
    assert!(!cache.crates.has_entry());
    assert!(!cache.version_stable.has_entry());
    assert!(!cache.version_beta.has_entry());
    assert!(!cache.version_nightly.has_entry());
    assert!(!cache.version_rustfmt.has_entry());
    assert!(!cache.version_clippy.has_entry());
    assert!(!cache.version_miri.has_entry());
}
