//! The value of an export passed from one instance to another:
//! functions, tables, memories and globals, and the structural
//! conversion between these wrappers and the lower-layer descriptors
//! used inside the virtual machine.
//!
//! The lower layer's descriptors are engine-internal values carried
//! through untouched; only the tag of the union is read here, so the
//! union itself is mirrored as [`VmExport`] over the very descriptor
//! types the virtual machine uses.

use vstd::prelude::*;
use crate::host_env::MetadataHandle;

verus! {

#[verifier::external_type_specification]
#[verifier::external_body]
pub struct ExVMExportFunction(wasmer_vm::VMExportFunction);

#[verifier::external_type_specification]
#[verifier::external_body]
pub struct ExVMExportTable(wasmer_vm::VMExportTable);

#[verifier::external_type_specification]
#[verifier::external_body]
pub struct ExVMExportMemory(wasmer_vm::VMExportMemory);

#[verifier::external_type_specification]
#[verifier::external_body]
pub struct ExVMExportGlobal(wasmer_vm::VMExportGlobal);

/// A function export value with the bookkeeping needed to create and
/// initialize host environments.
pub struct ExportFunction {
    /// The VM function descriptor, containing most of the data.
    pub vm_function: wasmer_vm::VMExportFunction,
    /// The registered host-environment metadata this function shares,
    /// present only for a host-implemented function carrying opaque
    /// state; absent for a WebAssembly-defined function.
    pub metadata: Option<MetadataHandle>,
}

/// A table export value.
pub struct ExportTable {
    /// The VM table descriptor, containing info about the table.
    pub vm_table: wasmer_vm::VMExportTable,
}

/// A memory export value.
pub struct ExportMemory {
    /// The VM memory descriptor, containing info about the memory.
    pub vm_memory: wasmer_vm::VMExportMemory,
}

/// A global export value.
pub struct ExportGlobal {
    /// The VM global descriptor, containing info about the global.
    pub vm_global: wasmer_vm::VMExportGlobal,
}

/// The value of an export passed from one instance to another.
pub enum Export {
    /// A function export value.
    Function(ExportFunction),
    /// A table export value.
    Table(ExportTable),
    /// A memory export value.
    Memory(ExportMemory),
    /// A global export value.
    Global(ExportGlobal),
}

/// The lower-layer export union: the same four kinds, carrying the
/// engine-internal descriptors alone. Host-environment metadata is an
/// engine-boundary concept and has no place here.
pub enum VmExport {
    /// A function export value.
    Function(wasmer_vm::VMExportFunction),
    /// A table export value.
    Table(wasmer_vm::VMExportTable),
    /// A memory export value.
    Memory(wasmer_vm::VMExportMemory),
    /// A global export value.
    Global(wasmer_vm::VMExportGlobal),
}

/// The structural mapping down to the lower layer: a function export
/// keeps only its callable descriptor (the metadata is dropped), the
/// other three kinds map one to one.
pub open spec fn spec_to_internal(e: Export) -> VmExport {
    match e {
        Export::Function(f) => VmExport::Function(f.vm_function),
        Export::Table(t) => VmExport::Table(t.vm_table),
        Export::Memory(m) => VmExport::Memory(m.vm_memory),
        Export::Global(g) => VmExport::Global(g.vm_global),
    }
}

/// The structural mapping up from the lower layer: each kind maps one
/// to one, and a function export comes back with no metadata. Metadata
/// flows one direction only, from registration into an export, never
/// back through the lower layer.
pub open spec fn spec_from_internal(v: VmExport) -> Export {
    match v {
        VmExport::Function(f) => Export::Function(
            ExportFunction { vm_function: f, metadata: None },
        ),
        VmExport::Table(t) => Export::Table(ExportTable { vm_table: t }),
        VmExport::Memory(m) => Export::Memory(ExportMemory { vm_memory: m }),
        VmExport::Global(g) => Export::Global(ExportGlobal { vm_global: g }),
    }
}

/// Converts an export into its lower-layer representation.
///
/// A function export's share of a host-environment registration is
/// *not* given back here: a caller converting such an export for good
/// keeps the duty to release the share, either through
/// [`discard_export`] beforehand or by converting with
/// [`to_internal_releasing`] instead; otherwise the registration leaks
/// and the master pointer is never handed to the drop operation.
pub fn to_internal(e: Export) -> (r: VmExport)
    ensures
        r == spec_to_internal(e),
{
    match e {
        Export::Function(f) => VmExport::Function(f.vm_function),
        Export::Table(t) => VmExport::Table(t.vm_table),
        Export::Memory(m) => VmExport::Memory(m.vm_memory),
        Export::Global(g) => VmExport::Global(g.vm_global),
    }
}

/// Wraps a lower-layer representation back into an export.
pub fn from_internal(v: VmExport) -> (r: Export)
    ensures
        r == spec_from_internal(v),
{
    match v {
        VmExport::Function(f) => Export::Function(
            ExportFunction { vm_function: f, metadata: None },
        ),
        VmExport::Table(t) => Export::Table(ExportTable { vm_table: t }),
        VmExport::Memory(m) => Export::Memory(ExportMemory { vm_memory: m }),
        VmExport::Global(g) => Export::Global(ExportGlobal { vm_global: g }),
    }
}

/// Converts an export into its lower-layer representation and gives
/// back the share of a host-environment registration the export held:
/// what discarding the export in favour of its lower-layer value
/// means. The second component tells the caller whether the embedder's
/// drop operation must now be invoked on the master pointer, exactly
/// as [`discard_export`] would.
pub fn to_internal_releasing(registry: &mut crate::host_env::HostEnvRegistry, e: Export) -> (r: (
    VmExport,
    Option<crate::host_env::ReleaseAction>,
))
    requires
        old(registry).wf(),
        can_discard(*old(registry), e),
    ensures
        final(registry).wf(),
        r.0 == spec_to_internal(e),
        match export_metadata(e) {
            Some(h) => {
                &&& r.1 == Some(crate::host_env::spec_release_action(old(registry).entry(h)))
                &&& final(registry).entries@ == old(registry).entries@.update(
                    h.index as int,
                    crate::host_env::spec_release_state(old(registry).entry(h)),
                )
            },
            None => r.1 is None && *final(registry) == *old(registry),
        },
{
    match e {
        Export::Function(f) => {
            let action = match f.metadata {
                Some(h) => Some(registry.release(h)),
                None => None,
            };
            (VmExport::Function(f.vm_function), action)
        },
        Export::Table(t) => (VmExport::Table(t.vm_table), None),
        Export::Memory(m) => (VmExport::Memory(m.vm_memory), None),
        Export::Global(g) => (VmExport::Global(g.vm_global), None),
    }
}

/// Round trip through the lower layer: a table, memory or global
/// export comes back unchanged; a function export keeps its callable
/// descriptor but comes back with an absent metadata field, even if it
/// had one — the documented asymmetry, not a round-trip law for
/// functions.
pub proof fn lemma_round_trip(e: Export)
    ensures
        e is Table || e is Memory || e is Global ==> spec_from_internal(spec_to_internal(e)) == e,
        e matches Export::Function(f) ==> spec_from_internal(spec_to_internal(e))
            == Export::Function(ExportFunction { vm_function: f.vm_function, metadata: None }),
{
}

/// The registration an export shares, if any: only a function export
/// of a host-implemented function carries one.
pub open spec fn export_metadata(e: Export) -> Option<MetadataHandle> {
    match e {
        Export::Function(f) => f.metadata,
        Export::Table(_) => None,
        Export::Memory(_) => None,
        Export::Global(_) => None,
    }
}

/// Whether an export may be discarded against this registry: the
/// registration it shares, if any, is live there.
pub open spec fn can_discard(r: crate::host_env::HostEnvRegistry, e: Export) -> bool {
    match export_metadata(e) {
        Some(h) => r.valid_handle(h) && !r.entry(h).released,
        None => true,
    }
}

/// Discards an export. A function export sharing a host-environment
/// registration gives its share back, and the caller is told whether
/// that was the last one — and so whether the embedder's drop
/// operation must now be invoked on the master pointer. Discarding any
/// other export touches nothing: table, memory and global exports live
/// and die with their instance.
pub fn discard_export(registry: &mut crate::host_env::HostEnvRegistry, e: Export) -> (a: Option<
    crate::host_env::ReleaseAction,
>)
    requires
        old(registry).wf(),
        can_discard(*old(registry), e),
    ensures
        final(registry).wf(),
        match export_metadata(e) {
            Some(h) => {
                &&& a == Some(crate::host_env::spec_release_action(old(registry).entry(h)))
                &&& final(registry).entries@ == old(registry).entries@.update(
                    h.index as int,
                    crate::host_env::spec_release_state(old(registry).entry(h)),
                )
            },
            None => a is None && *final(registry) == *old(registry),
        },
{
    match e {
        Export::Function(f) => {
            match f.metadata {
                Some(h) => Some(registry.release(h)),
                None => None,
            }
        },
        Export::Table(_) => None,
        Export::Memory(_) => None,
        Export::Global(_) => None,
    }
}

impl From<ExportFunction> for Export {
    /// Wraps a function export value.
    fn from(func: ExportFunction) -> (r: Self) {
        Self::Function(func)
    }
}

impl vstd::std_specs::convert::FromSpecImpl<ExportFunction> for Export {
    open spec fn obeys_from_spec() -> bool {
        true
    }

    open spec fn from_spec(func: ExportFunction) -> Self {
        Self::Function(func)
    }
}

impl From<ExportTable> for Export {
    /// Wraps a table export value.
    fn from(table: ExportTable) -> (r: Self) {
        Self::Table(table)
    }
}

impl vstd::std_specs::convert::FromSpecImpl<ExportTable> for Export {
    open spec fn obeys_from_spec() -> bool {
        true
    }

    open spec fn from_spec(table: ExportTable) -> Self {
        Self::Table(table)
    }
}

impl From<ExportMemory> for Export {
    /// Wraps a memory export value.
    fn from(memory: ExportMemory) -> (r: Self) {
        Self::Memory(memory)
    }
}

impl vstd::std_specs::convert::FromSpecImpl<ExportMemory> for Export {
    open spec fn obeys_from_spec() -> bool {
        true
    }

    open spec fn from_spec(memory: ExportMemory) -> Self {
        Self::Memory(memory)
    }
}

impl From<ExportGlobal> for Export {
    /// Wraps a global export value.
    fn from(global: ExportGlobal) -> (r: Self) {
        Self::Global(global)
    }
}

impl vstd::std_specs::convert::FromSpecImpl<ExportGlobal> for Export {
    open spec fn obeys_from_spec() -> bool {
        true
    }

    open spec fn from_spec(global: ExportGlobal) -> Self {
        Self::Global(global)
    }
}

} // verus!
