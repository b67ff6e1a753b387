use std::sync::Arc;
use wasm_embedding::export::{
    discard_export, from_internal, to_internal, to_internal_releasing, Export, ExportGlobal,
    ExportMemory, ExportTable, VmExport,
};
use wasm_embedding::host_env::HostEnvRegistry;
use wasmer_types::{GlobalType, MemoryType, Mutability, Pages, TableType, Type};
use wasmer_vm::{
    Global, LinearMemory, LinearTable, MemoryStyle, TableStyle, VMExportGlobal, VMExportMemory,
    VMExportTable,
};

fn sample_global() -> VMExportGlobal {
    VMExportGlobal {
        from: Arc::new(Global::new(GlobalType::new(Type::I32, Mutability::Const))),
        instance_ref: None,
    }
}

fn sample_table() -> VMExportTable {
    let table = LinearTable::new(
        &TableType::new(Type::FuncRef, 0, None),
        &TableStyle::CallerChecksSignature,
    )
    .expect("self-owned table");
    VMExportTable { from: Arc::new(table), instance_ref: None }
}

fn sample_memory() -> VMExportMemory {
    let memory = LinearMemory::new(
        &MemoryType::new(Pages(0), None, false),
        &MemoryStyle::Dynamic { offset_guard_size: 0 },
    )
    .expect("self-owned memory");
    VMExportMemory { from: Arc::new(memory), instance_ref: None }
}

#[test]
fn global_round_trips_through_the_lower_layer() {
    let vm_global = sample_global();
    let witness = vm_global.clone();
    let down = to_internal(Export::Global(ExportGlobal { vm_global }));
    assert!(matches!(down, VmExport::Global(_)));
    match from_internal(down) {
        Export::Global(g) => assert!(g.vm_global.same(&witness)),
        _ => panic!("global came back as another kind"),
    }
}

#[test]
fn table_round_trips_through_the_lower_layer() {
    let vm_table = sample_table();
    let witness = vm_table.clone();
    let down = to_internal(Export::Table(ExportTable { vm_table }));
    assert!(matches!(down, VmExport::Table(_)));
    match from_internal(down) {
        Export::Table(t) => assert!(t.vm_table.same(&witness)),
        _ => panic!("table came back as another kind"),
    }
}

#[test]
fn memory_round_trips_through_the_lower_layer() {
    let vm_memory = sample_memory();
    let witness = vm_memory.clone();
    let down = to_internal(Export::Memory(ExportMemory { vm_memory }));
    assert!(matches!(down, VmExport::Memory(_)));
    match from_internal(down) {
        Export::Memory(m) => assert!(m.vm_memory.same(&witness)),
        _ => panic!("memory came back as another kind"),
    }
}

#[test]
fn conversion_is_structural_per_kind() {
    let down = to_internal(Export::Global(ExportGlobal { vm_global: sample_global() }));
    assert!(matches!(down, VmExport::Global(_)));
    let up = from_internal(VmExport::Table(sample_table()));
    assert!(matches!(up, Export::Table(_)));
}

#[test]
fn discarding_a_table_export_releases_no_environment() {
    let mut registry = HostEnvRegistry::new();
    let registered_before = registry.entries.len();
    let action = discard_export(&mut registry, Export::Table(ExportTable { vm_table: sample_table() }));
    assert_eq!(action, None);
    assert_eq!(registry.entries.len(), registered_before);
}

#[test]
fn converting_a_global_export_releasing_returns_no_action() {
    let mut registry = HostEnvRegistry::new();
    let e = Export::Global(ExportGlobal { vm_global: sample_global() });
    let (down, action) = to_internal_releasing(&mut registry, e);
    assert!(matches!(down, VmExport::Global(_)));
    assert_eq!(action, None);
}

#[test]
fn export_from_wrappers_tag_the_kind() {
    let e = Export::from(ExportTable { vm_table: sample_table() });
    assert!(matches!(e, Export::Table(_)));
    let e = Export::from(ExportMemory { vm_memory: sample_memory() });
    assert!(matches!(e, Export::Memory(_)));
    let e = Export::from(ExportGlobal { vm_global: sample_global() });
    assert!(matches!(e, Export::Global(_)));
}
