//! Engine construction: turning a validated configuration into a
//! shared engine handle backed by one of the compiled-in execution
//! backends.

use vstd::prelude::*;
use std::sync::Arc;
use crate::config::{
    wasmer_compiler_t, wasmer_engine_t, wasm_config_t, Capabilities, EnginePlan,
    compiled_in_capabilities, has_compiler, has_engine, plan_engine, spec_plan, within_build,
};
use crate::error::{error_message, spec_error_message, LastErrorSlot};

verus! {

#[verifier::external_type_specification]
#[verifier::external_body]
pub struct ExJITEngine(wasmer_engine_jit::JITEngine);

#[verifier::external_type_specification]
#[verifier::external_body]
pub struct ExNativeEngine(wasmer_engine_native::NativeEngine);

#[verifier::external_type_specification]
#[verifier::external_body]
pub struct ExObjectFileEngine(wasmer_engine_object_file::ObjectFileEngine);

/// Relies on wasmer_engine_jit::JIT::new and JIT::engine, with
/// wasmer_compiler_cranelift::Cranelift::default as the compiler
/// configuration: builds a just-in-time engine carrying the Cranelift
/// compiler.
#[verifier::external_body]
fn jit_engine_cranelift() -> wasmer_engine_jit::JITEngine {
    wasmer_engine_jit::JIT::new(wasmer_compiler_cranelift::Cranelift::default()).engine()
}

/// Relies on wasmer_engine_jit::JIT::new and JIT::engine, with
/// wasmer_compiler_singlepass::Singlepass::default as the compiler
/// configuration: builds a just-in-time engine carrying the Singlepass
/// compiler.
#[verifier::external_body]
fn jit_engine_singlepass() -> wasmer_engine_jit::JITEngine {
    wasmer_engine_jit::JIT::new(wasmer_compiler_singlepass::Singlepass::default()).engine()
}

/// Relies on wasmer_engine_jit::JIT::headless and JIT::engine: builds a
/// just-in-time engine without any compiler.
#[verifier::external_body]
fn jit_engine_headless() -> wasmer_engine_jit::JITEngine {
    wasmer_engine_jit::JIT::headless().engine()
}

/// Relies on wasmer_engine_native::Native::new and Native::engine,
/// with wasmer_compiler_cranelift::Cranelift::default as the compiler
/// configuration: builds an ahead-of-time engine carrying the
/// Cranelift compiler. NativeEngine::new aborts the process when the
/// system linker it looks up (`gcc`; `clang-10` or `clang` when
/// cross-compiling) is missing, so the caller must hold the `native`
/// capability, which asserts the linker was found.
#[verifier::external_body]
fn native_engine_cranelift(_caps: &Capabilities) -> wasmer_engine_native::NativeEngine
    requires
        _caps.native,
{
    wasmer_engine_native::Native::new(wasmer_compiler_cranelift::Cranelift::default()).engine()
}

/// Relies on wasmer_engine_native::Native::new and Native::engine,
/// with wasmer_compiler_singlepass::Singlepass::default as the
/// compiler configuration: builds an ahead-of-time engine carrying the
/// Singlepass compiler. NativeEngine::new aborts the process when the
/// system linker it looks up (`gcc`; `clang-10` or `clang` when
/// cross-compiling) is missing, so the caller must hold the `native`
/// capability, which asserts the linker was found.
#[verifier::external_body]
fn native_engine_singlepass(_caps: &Capabilities) -> wasmer_engine_native::NativeEngine
    requires
        _caps.native,
{
    wasmer_engine_native::Native::new(wasmer_compiler_singlepass::Singlepass::default()).engine()
}

/// Relies on wasmer_engine_native::Native::headless and Native::engine:
/// builds an ahead-of-time engine without any compiler.
#[verifier::external_body]
fn native_engine_headless() -> wasmer_engine_native::NativeEngine {
    wasmer_engine_native::Native::headless().engine()
}

/// Relies on wasmer_engine_object_file::ObjectFile::headless and
/// ObjectFile::engine: builds the engine that only loads pre-compiled
/// object artifacts; it is always headless.
#[verifier::external_body]
fn object_file_engine_headless() -> wasmer_engine_object_file::ObjectFileEngine {
    wasmer_engine_object_file::ObjectFile::headless().engine()
}

/// The concrete backend object behind an engine handle, shared and
/// immutable once constructed.
pub enum EngineInner {
    /// A just-in-time engine.
    Jit(Arc<wasmer_engine_jit::JITEngine>),
    /// An ahead-of-time engine.
    Native(Arc<wasmer_engine_native::NativeEngine>),
    /// An object-file engine.
    ObjectFile(Arc<wasmer_engine_object_file::ObjectFileEngine>),
}

/// An engine is used by the store to drive the compilation and the
/// execution of a WebAssembly module. The handle records, as plain
/// values, which execution backend it is and which compiler it
/// carries, beside the shared backend object itself.
#[allow(non_camel_case_types)]
pub struct wasm_engine_t {
    /// The execution backend this engine uses.
    pub kind: wasmer_engine_t,
    /// The compiler this engine carries; `None` for a headless engine.
    pub compiler: Option<wasmer_compiler_t>,
    /// The shared backend object itself.
    pub inner: EngineInner,
}

impl wasm_engine_t {
    /// The recorded shape agrees with the backend object actually held.
    pub open spec fn wf(self) -> bool {
        &&& match self.inner {
            EngineInner::Jit(_) => self.kind == wasmer_engine_t::JIT,
            EngineInner::Native(_) => self.kind == wasmer_engine_t::NATIVE,
            EngineInner::ObjectFile(_) => self.kind == wasmer_engine_t::OBJECT_FILE,
        }
        &&& self.kind == wasmer_engine_t::OBJECT_FILE ==> self.compiler is None
    }
}

/// Whether the given plan can be materialized under a capability set:
/// the set claims nothing this build lacks, the plan's engine and
/// compiler are in it, and the object-file engine is headless.
pub open spec fn plan_supported(plan: EnginePlan, caps: Capabilities) -> bool {
    &&& within_build(caps)
    &&& has_engine(caps, plan.engine)
    &&& match plan.compiler {
        Some(c) => has_compiler(caps, c) && plan.engine != wasmer_engine_t::OBJECT_FILE,
        None => true,
    }
}

/// Materializes a resolved plan into an engine handle of exactly that
/// shape.
fn construct_engine(plan: &EnginePlan, caps: &Capabilities) -> (r: wasm_engine_t)
    requires
        plan_supported(*plan, *caps),
    ensures
        r.kind == plan.engine,
        r.compiler == plan.compiler,
        r.wf(),
{
    let inner: EngineInner = match (plan.engine, plan.compiler) {
        (wasmer_engine_t::JIT, Some(wasmer_compiler_t::CRANELIFT)) => EngineInner::Jit(
            Arc::new(jit_engine_cranelift()),
        ),
        (wasmer_engine_t::JIT, Some(wasmer_compiler_t::SINGLEPASS)) => EngineInner::Jit(
            Arc::new(jit_engine_singlepass()),
        ),
        (wasmer_engine_t::JIT, None) => EngineInner::Jit(Arc::new(jit_engine_headless())),
        (wasmer_engine_t::NATIVE, Some(wasmer_compiler_t::CRANELIFT)) => EngineInner::Native(
            Arc::new(native_engine_cranelift(caps)),
        ),
        (wasmer_engine_t::NATIVE, Some(wasmer_compiler_t::SINGLEPASS)) => EngineInner::Native(
            Arc::new(native_engine_singlepass(caps)),
        ),
        (wasmer_engine_t::NATIVE, None) => EngineInner::Native(Arc::new(native_engine_headless())),
        (wasmer_engine_t::OBJECT_FILE, None) => EngineInner::ObjectFile(
            Arc::new(object_file_engine_headless()),
        ),
        (_, Some(wasmer_compiler_t::LLVM)) => {
            proof {
                assert(false);
            }
            vstd::pervasive::unreached()
        },
        (wasmer_engine_t::OBJECT_FILE, Some(_)) => {
            proof {
                assert(false);
            }
            vstd::pervasive::unreached()
        },
    };
    wasm_engine_t { kind: plan.engine, compiler: plan.compiler, inner }
}

/// Creates an engine with a particular configuration, or reports into
/// the last-error slot which selected backend this process lacks.
///
/// The capability set is the one the embedding layer computed at
/// process start: the linked backends, narrowed by what the machine
/// offers (see [`Capabilities::native`]). A configuration selecting a
/// backend outside it fails here with the structured diagnostic; an
/// absent result stands for the failure, and the slot — untouched by a
/// success — holds the message.
pub fn wasm_engine_new_with_config(
    config: Box<wasm_config_t>,
    caps: &Capabilities,
    slot: &mut LastErrorSlot,
) -> (r: Option<Box<wasm_engine_t>>)
    requires
        within_build(*caps),
    ensures
        r is Some <==> spec_plan(*config, *caps) is Ok,
        r is Some ==> {
            &&& r->0.kind == spec_plan(*config, *caps)->Ok_0.engine
            &&& r->0.compiler == spec_plan(*config, *caps)->Ok_0.compiler
            &&& r->0.wf()
            &&& *final(slot) == *old(slot)
        },
        r is None ==> (final(slot).message matches Some(m) && m@ == spec_error_message(
            spec_plan(*config, *caps)->Err_0,
        )),
{
    match plan_engine(&config, caps) {
        Ok(plan) => Some(Box::new(construct_engine(&plan, caps))),
        Err(e) => {
            slot.record(error_message(&e));
            None
        },
    }
}

/// Creates a new engine of the build's default shape: a just-in-time
/// engine carrying the default compiler. The defaults are compiled in
/// by construction of the build, so this cannot fail.
pub fn wasm_engine_new() -> (r: Box<wasm_engine_t>)
    ensures
        r.kind == wasmer_engine_t::JIT,
        r.compiler == Some(wasmer_compiler_t::CRANELIFT),
        r.wf(),
{
    let plan = EnginePlan {
        engine: wasmer_engine_t::default(),
        compiler: Some(wasmer_compiler_t::default()),
    };
    Box::new(construct_engine(&plan, &compiled_in_capabilities()))
}

/// Deletes an engine: the handle is consumed and the backend object is
/// released with its last owner.
pub fn wasm_engine_delete(engine: Option<Box<wasm_engine_t>>) {
    let _ = engine;
}

} // verus!
