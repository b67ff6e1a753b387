use wasm_embedding::host_env::{
    CloneRequest, ExportFunctionMetadata, HostEnvRegistry, ReleaseAction,
};

// A tiny stand-in for an embedder: hands out distinct addresses for
// clones and counts how often each pointer is dropped.
struct Embedder {
    next_addr: usize,
    drops: Vec<usize>,
}

impl Embedder {
    fn new() -> Self {
        Embedder { next_addr: 0x2000, drops: Vec::new() }
    }

    fn clone_env(&mut self, source: usize) -> usize {
        assert_ne!(source, 0, "clone reads the master environment");
        let fresh = self.next_addr;
        self.next_addr += 0x10;
        fresh
    }

    fn drop_env(&mut self, ptr: usize) {
        assert!(!self.drops.contains(&ptr), "a pointer is dropped at most once");
        self.drops.push(ptr);
    }
}

#[test]
fn metadata_starts_registered_with_one_share() {
    let m = ExportFunctionMetadata::new(0x1000, true);
    assert_eq!(m.host_env, 0x1000);
    assert!(m.has_initializer);
    assert_eq!(m.refs, 1);
    assert!(!m.released);
    assert_eq!(m.clones_issued, 0);
}

#[test]
fn sole_share_release_hands_over_the_master() {
    let mut registry = HostEnvRegistry::new();
    let h = registry.register(0x1000, false);
    assert_eq!(registry.release(h), ReleaseAction::DropMaster(0x1000));
}

#[test]
fn null_master_is_never_handed_to_the_drop_operation() {
    let mut registry = HostEnvRegistry::new();
    let h = registry.register(0, false);
    assert_eq!(registry.release(h), ReleaseAction::NothingToDrop);
}

#[test]
fn three_shares_drop_master_exactly_once_and_last() {
    let mut embedder = Embedder::new();
    let mut registry = HostEnvRegistry::new();
    let h = registry.register(0x1000, false);
    registry.retain(h);
    registry.retain(h);
    let mut master_drops = 0;
    for _ in 0..3 {
        match registry.release(h) {
            ReleaseAction::StillShared => {}
            ReleaseAction::DropMaster(ptr) => {
                embedder.drop_env(ptr);
                master_drops += 1;
            }
            ReleaseAction::NothingToDrop => panic!("the master is not null"),
        }
    }
    assert_eq!(master_drops, 1);
    assert_eq!(embedder.drops, vec![0x1000]);
}

#[test]
fn interleaved_retains_and_releases_keep_the_master_until_the_last() {
    let mut registry = HostEnvRegistry::new();
    let h = registry.register(0x1000, false);
    registry.retain(h); // two exports share the registration
    assert_eq!(registry.release(h), ReleaseAction::StillShared);
    registry.retain(h); // wrapped again before the last share went
    assert_eq!(registry.release(h), ReleaseAction::StillShared);
    assert_eq!(registry.release(h), ReleaseAction::DropMaster(0x1000));
}

#[test]
fn clones_are_distinct_and_independent_of_the_master() {
    let mut embedder = Embedder::new();
    let mut registry = HostEnvRegistry::new();
    let h = registry.register(0x1000, true);
    let mut clones: Vec<usize> = Vec::new();
    let mut serials: Vec<u64> = Vec::new();
    for _ in 0..5 {
        let request: CloneRequest = registry.clone_for_instance(h);
        assert_eq!(request.source, 0x1000, "clones are taken from the master");
        assert!(!serials.contains(&request.serial), "serials are pairwise distinct");
        serials.push(request.serial);
        let clone = embedder.clone_env(request.source);
        assert!(!clones.contains(&clone));
        if registry.initializer_required(h, clone) {
            // the instance-owning layer would run the initializer here,
            // on the clone, never on the master
        }
        clones.push(clone);
    }
    // each clone is dropped by its own instance, in any order, without
    // touching the others or the master
    for clone in clones.into_iter().rev() {
        embedder.drop_env(clone);
    }
    assert_eq!(registry.release(h), ReleaseAction::DropMaster(0x1000));
    embedder.drop_env(0x1000);
    assert_eq!(embedder.drops.len(), 6);
}

#[test]
fn registrations_in_one_registry_are_independent() {
    let mut registry = HostEnvRegistry::new();
    let first = registry.register(0x1000, false);
    let second = registry.register(0x3000, true);
    registry.retain(second);
    assert_eq!(registry.release(first), ReleaseAction::DropMaster(0x1000));
    assert_eq!(registry.release(second), ReleaseAction::StillShared);
    assert_eq!(registry.release(second), ReleaseAction::DropMaster(0x3000));
}
