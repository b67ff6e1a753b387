//! Lifecycle bookkeeping for the opaque host environment a
//! host-implemented function carries.
//!
//! The embedder registers a master environment pointer together with
//! clone, drop and (optionally) initializer operations; the concrete
//! environment type is erased at this boundary, so the pointer is an
//! opaque address and the operations are a manual-dispatch record the
//! embedding layer owns. This module owns the bookkeeping those
//! operations hang off: how many exports share one registration, when
//! the master pointer must be handed to the drop operation (exactly
//! once, after the last sharing export is gone), and what each
//! per-instance clone is taken from. It decides; the embedding layer,
//! which holds the actual function pointers, performs.

use vstd::prelude::*;

verus! {

/// The master registration of one host-implemented function's
/// environment: an opaque address, whether an initializer was
/// supplied, and the share/release bookkeeping. The registration is
/// `Registered` until its last sharing export is released, then
/// `Released`, monotonically: no operation revives it.
#[derive(Debug, Copy, Clone, PartialEq, Eq, Structural)]
pub struct ExportFunctionMetadata {
    /// The master copy of the environment: the original opaque pointer
    /// passed in by the embedder, as an address; `0` stands for the
    /// null pointer, which registration passes through.
    pub host_env: usize,
    /// Whether the embedder supplied a post-instantiation initializer
    /// to run on each per-instance clone.
    pub has_initializer: bool,
    /// How many exports currently share this registration.
    pub refs: u64,
    /// Whether the master pointer has already been handed over for
    /// release; nothing may touch the registration afterwards.
    pub released: bool,
    /// How many per-instance clones have been requested so far; each
    /// request gets the next serial.
    pub clones_issued: u64,
}

/// What the caller must do after releasing a share of a registration.
#[derive(Debug, Copy, Clone, PartialEq, Eq, Structural)]
pub enum ReleaseAction {
    /// Other exports still share the registration: nothing to do.
    StillShared,
    /// The last share is gone: the embedder's drop operation must now
    /// be invoked on this master pointer, exactly once.
    DropMaster(usize),
    /// The last share is gone but the master pointer is null: the drop
    /// operation is not invoked.
    NothingToDrop,
}

/// A per-instance clone request: the embedder's clone operation is to
/// be applied to `source` (always the master pointer, never an earlier
/// clone), yielding an independent copy the requesting instance owns.
#[derive(Debug, Copy, Clone, PartialEq, Eq, Structural)]
pub struct CloneRequest {
    /// The pointer to clone from: the master copy of the environment.
    pub source: usize,
    /// The serial of this request, distinct per registration from the
    /// serial of every other request.
    pub serial: u64,
}

impl ExportFunctionMetadata {
    /// A registration is never both live and share-less, nor released
    /// with shares remaining.
    pub open spec fn wf(self) -> bool {
        if self.released {
            self.refs == 0
        } else {
            self.refs >= 1
        }
    }

    /// Create an `ExportFunctionMetadata` with information about the
    /// exported function's environment, in `Registered` state with one
    /// share.
    ///
    /// The embedder guarantees, by contract of registration, that the
    /// opaque state and its operations tolerate cross-thread use, and
    /// that a null `host_env` is tolerated by its own drop operation;
    /// neither is re-verified here.
    pub fn new(host_env: usize, has_initializer: bool) -> (m: Self)
        ensures
            m == (ExportFunctionMetadata {
                host_env,
                has_initializer,
                refs: 1,
                released: false,
                clones_issued: 0,
            }),
            m.wf(),
    {
        ExportFunctionMetadata { host_env, has_initializer, refs: 1, released: false, clones_issued: 0 }
    }
}

/// The registration after one share is released.
pub open spec fn spec_release_state(m: ExportFunctionMetadata) -> ExportFunctionMetadata {
    if m.refs > 1 {
        ExportFunctionMetadata { refs: (m.refs - 1) as u64, ..m }
    } else {
        ExportFunctionMetadata { refs: 0, released: true, ..m }
    }
}

/// What releasing one share of the registration obliges the caller to
/// do.
pub open spec fn spec_release_action(m: ExportFunctionMetadata) -> ReleaseAction {
    if m.refs > 1 {
        ReleaseAction::StillShared
    } else if m.host_env != 0 {
        ReleaseAction::DropMaster(m.host_env)
    } else {
        ReleaseAction::NothingToDrop
    }
}

/// The registration after `k` successive releases.
pub open spec fn spec_after_releases(m: ExportFunctionMetadata, k: nat) -> ExportFunctionMetadata
    decreases k,
{
    if k == 0 {
        m
    } else {
        spec_release_state(spec_after_releases(m, (k - 1) as nat))
    }
}

/// A handle to one registration in a [`HostEnvRegistry`]: what an
/// export's metadata field holds, so that any number of exports can
/// share one registration.
#[derive(Debug, Copy, Clone, PartialEq, Eq, Structural)]
pub struct MetadataHandle {
    /// The registration's slot in the registry.
    pub index: usize,
}

/// All host-environment registrations of one engine boundary. Shares
/// are counted manually here — retain on wrap, release on drop — so
/// that the hand-over of the master pointer to the embedder's drop
/// operation happens exactly once, whatever order the sharing exports
/// are dropped in.
pub struct HostEnvRegistry {
    /// The registrations, indexed by handle. Released registrations
    /// keep their slot, so handles stay stable.
    pub entries: Vec<ExportFunctionMetadata>,
}

impl HostEnvRegistry {
    /// Every registration's bookkeeping is consistent.
    pub open spec fn wf(self) -> bool {
        forall|i: int| 0 <= i < self.entries@.len() ==> (#[trigger] self.entries@[i]).wf()
    }

    /// Whether a handle refers to a registration of this registry.
    pub open spec fn valid_handle(self, h: MetadataHandle) -> bool {
        h.index < self.entries@.len()
    }

    /// The registration a handle refers to.
    pub open spec fn entry(self, h: MetadataHandle) -> ExportFunctionMetadata {
        self.entries@[h.index as int]
    }

    /// An empty registry: no environment registered yet.
    pub fn new() -> (r: Self)
        ensures
            r.entries@.len() == 0,
            r.wf(),
    {
        HostEnvRegistry { entries: Vec::new() }
    }

    /// Registers a master environment pointer (with whether an
    /// initializer was supplied) and hands back the registration's
    /// handle, with one share held by the export about to wrap it.
    pub fn register(&mut self, host_env: usize, has_initializer: bool) -> (h: MetadataHandle)
        requires
            old(self).wf(),
            old(self).entries@.len() < usize::MAX,
        ensures
            final(self).wf(),
            h.index == old(self).entries@.len(),
            final(self).valid_handle(h),
            final(self).entries@ == old(self).entries@.push(
                ExportFunctionMetadata {
                    host_env,
                    has_initializer,
                    refs: 1,
                    released: false,
                    clones_issued: 0,
                },
            ),
    {
        let h = MetadataHandle { index: self.entries.len() };
        self.entries.push(ExportFunctionMetadata::new(host_env, has_initializer));
        h
    }

    /// Records one more export sharing the registration (the same host
    /// function exported under another name shares the handle rather
    /// than re-registering).
    pub fn retain(&mut self, h: MetadataHandle)
        requires
            old(self).wf(),
            old(self).valid_handle(h),
            !old(self).entry(h).released,
            old(self).entry(h).refs < u64::MAX,
        ensures
            final(self).wf(),
            final(self).entries@ == old(self).entries@.update(
                h.index as int,
                ExportFunctionMetadata {
                    refs: (old(self).entry(h).refs + 1) as u64,
                    ..old(self).entry(h)
                },
            ),
    {
        let entry = &mut self.entries[h.index];
        entry.refs = entry.refs + 1;
    }

    /// Releases one share of the registration. When the last share
    /// goes, the registration becomes `Released` for good and the
    /// caller is told to invoke the embedder's drop operation on the
    /// master pointer — the one and only such hand-over — unless the
    /// master pointer is null, which is passed through untouched.
    pub fn release(&mut self, h: MetadataHandle) -> (a: ReleaseAction)
        requires
            old(self).wf(),
            old(self).valid_handle(h),
            !old(self).entry(h).released,
        ensures
            final(self).wf(),
            a == spec_release_action(old(self).entry(h)),
            final(self).entries@ == old(self).entries@.update(
                h.index as int,
                spec_release_state(old(self).entry(h)),
            ),
    {
        let entry = &mut self.entries[h.index];
        if entry.refs > 1 {
            entry.refs = entry.refs - 1;
            ReleaseAction::StillShared
        } else {
            entry.refs = 0;
            entry.released = true;
            if entry.host_env != 0 {
                ReleaseAction::DropMaster(entry.host_env)
            } else {
                ReleaseAction::NothingToDrop
            }
        }
    }

    /// Requests a fresh per-instance clone of the environment: the
    /// embedder's clone operation is to be applied to the master
    /// pointer, never to an earlier clone. The copy belongs to the
    /// requesting instance, which releases it through its own teardown
    /// path; the registration's shares and master are untouched.
    pub fn clone_for_instance(&mut self, h: MetadataHandle) -> (c: CloneRequest)
        requires
            old(self).wf(),
            old(self).valid_handle(h),
            !old(self).entry(h).released,
            old(self).entry(h).clones_issued < u64::MAX,
        ensures
            final(self).wf(),
            c == (CloneRequest {
                source: old(self).entry(h).host_env,
                serial: old(self).entry(h).clones_issued,
            }),
            final(self).entries@ == old(self).entries@.update(
                h.index as int,
                ExportFunctionMetadata {
                    clones_issued: (old(self).entry(h).clones_issued + 1) as u64,
                    ..old(self).entry(h)
                },
            ),
    {
        let entry = &mut self.entries[h.index];
        let c = CloneRequest { source: entry.host_env, serial: entry.clones_issued };
        entry.clones_issued = entry.clones_issued + 1;
        c
    }

    /// Whether the post-instantiation initializer must be run on a
    /// fresh clone. The initializer is only ever run on per-instance
    /// clones, never on the master pointer, and once per instance; the
    /// caller passes the clone it is about to initialize.
    pub fn initializer_required(&self, h: MetadataHandle, clone_ptr: usize) -> (r: bool)
        requires
            self.wf(),
            self.valid_handle(h),
            !self.entry(h).released,
            clone_ptr != self.entry(h).host_env,
        ensures
            r == self.entry(h).has_initializer,
    {
        let _ = clone_ptr;
        self.entries[h.index].has_initializer
    }
}

/// After `k` releases of a live registration with at least `k` shares,
/// exactly `k` shares are gone and nothing else has changed; in
/// particular the master has not been handed over while shares remain.
proof fn lemma_refs_after_releases(m: ExportFunctionMetadata, k: nat)
    requires
        m.wf(),
        !m.released,
        k < m.refs,
    ensures
        spec_after_releases(m, k) == (ExportFunctionMetadata { refs: (m.refs - k) as u64, ..m }),
        !spec_after_releases(m, k).released,
        spec_after_releases(m, k).wf(),
    decreases k,
{
    if k > 0 {
        lemma_refs_after_releases(m, (k - 1) as nat);
    }
}

/// However many exports share one registration, and in whatever order
/// they are dropped, the master pointer is handed to the embedder's
/// drop operation exactly once: on none of the first `n - 1` releases,
/// and on the `n`-th, after which the registration is `Released` and
/// no further release is permitted. (Releases are interchangeable, so
/// "order" reduces to their count.)
pub proof fn lemma_master_dropped_exactly_once(m: ExportFunctionMetadata, n: nat)
    requires
        m.wf(),
        !m.released,
        m.refs == n,
        m.host_env != 0,
    ensures
        forall|k: nat| k < n - 1 ==> spec_release_action(#[trigger] spec_after_releases(m, k))
            == ReleaseAction::StillShared,
        spec_release_action(spec_after_releases(m, (n - 1) as nat)) == ReleaseAction::DropMaster(
            m.host_env,
        ),
        spec_after_releases(m, n).released,
{
    assert forall|k: nat| k < n - 1 implies spec_release_action(
        #[trigger] spec_after_releases(m, k),
    ) == ReleaseAction::StillShared by {
        lemma_refs_after_releases(m, k);
    }
    lemma_refs_after_releases(m, (n - 1) as nat);
    assert(spec_after_releases(m, n) == spec_release_state(
        spec_after_releases(m, (n - 1) as nat),
    ));
}

/// The registration after `k` clone requests.
pub open spec fn spec_after_clones(m: ExportFunctionMetadata, k: nat) -> ExportFunctionMetadata
    decreases k,
{
    if k == 0 {
        m
    } else {
        ExportFunctionMetadata {
            clones_issued: (spec_after_clones(m, (k - 1) as nat).clones_issued + 1) as u64,
            ..spec_after_clones(m, (k - 1) as nat)
        }
    }
}

/// The request handed out by the `i`-th of a run of clone requests.
pub open spec fn spec_clone_request_at(m: ExportFunctionMetadata, i: nat) -> CloneRequest {
    CloneRequest {
        source: spec_after_clones(m, i).host_env,
        serial: spec_after_clones(m, i).clones_issued,
    }
}

/// A run of `k` clone requests hands out `k` requests with pairwise
/// distinct serials, each taken from the master pointer — never from
/// an earlier clone — and leaves the master pointer, the shares and
/// the release state of the registration untouched: every clone is an
/// independent copy, later droppable by its own instance without
/// affecting the others or the master.
pub proof fn lemma_clones_distinct_and_independent(m: ExportFunctionMetadata, k: nat)
    requires
        m.clones_issued + k <= u64::MAX,
    ensures
        forall|i: nat| i < k ==> #[trigger] spec_clone_request_at(m, i) == (CloneRequest {
            source: m.host_env,
            serial: (m.clones_issued + i) as u64,
        }),
        forall|i: nat, j: nat|
            i < k && j < k && i != j ==> #[trigger] spec_clone_request_at(m, i).serial
                != #[trigger] spec_clone_request_at(m, j).serial,
        spec_after_clones(m, k) == (ExportFunctionMetadata {
            clones_issued: (m.clones_issued + k) as u64,
            ..m
        }),
    decreases k,
{
    if k > 0 {
        lemma_clones_distinct_and_independent(m, (k - 1) as nat);
        assert(spec_clone_request_at(m, (k - 1) as nat) == (CloneRequest {
            source: m.host_env,
            serial: (m.clones_issued + (k - 1) as nat) as u64,
        }));
    }
}

} // verus!
