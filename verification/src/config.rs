//! Backend configuration: which code-generation backend and which
//! execution backend a store's engine should use, and which of those the
//! running build has compiled in.

use vstd::prelude::*;

verus! {

/// Kind of code-generation backends (compilers) that can be used by the
/// engines.
#[allow(non_camel_case_types)]
#[derive(Debug, Copy, Clone, PartialEq, Eq, Structural)]
pub enum wasmer_compiler_t {
    /// The Cranelift compiler.
    CRANELIFT,
    /// The LLVM compiler.
    LLVM,
    /// The Singlepass compiler.
    SINGLEPASS,
}

/// Kind of execution backends (engines) that can be used by the store.
#[allow(non_camel_case_types)]
#[derive(Debug, Copy, Clone, PartialEq, Eq, Structural)]
pub enum wasmer_engine_t {
    /// The just-in-time engine: code is generated and run in memory.
    JIT,
    /// The native engine: code is compiled ahead of time into a shared
    /// object.
    NATIVE,
    /// The object-file engine: only pre-compiled artifacts are loaded,
    /// no code generation is performed.
    OBJECT_FILE,
}

/// The set of backends compiled into a build, as a plain value: the
/// factory branches over it at run time instead of being rewritten per
/// build.
#[derive(Debug, Copy, Clone, PartialEq, Eq, Structural)]
pub struct Capabilities {
    /// Whether any code generation at all is compiled in; when false,
    /// every engine is constructed headless.
    pub compiler: bool,
    /// Whether the Cranelift compiler is compiled in.
    pub cranelift: bool,
    /// Whether the LLVM compiler is compiled in.
    pub llvm: bool,
    /// Whether the Singlepass compiler is compiled in.
    pub singlepass: bool,
    /// Whether the just-in-time engine is compiled in.
    pub jit: bool,
    /// Whether the native engine is usable: compiled in, **and** the
    /// system linker its construction requires is present on this
    /// machine. The embedding layer probes for the linker once at
    /// process start and clears this flag when none is found; with the
    /// flag wrongly set, constructing a native engine aborts the
    /// process.
    pub native: bool,
    /// Whether the object-file engine is compiled in.
    pub object_file: bool,
}

/// The most this build can offer: the backends linked into it.
/// Whether the native engine is actually usable further depends on the
/// machine (its linker), so the capability set handed to the factory
/// is this value, possibly with `native` cleared by the embedding
/// layer's probe.
pub open spec fn build_capabilities() -> Capabilities {
    Capabilities {
        compiler: true,
        cranelift: true,
        llvm: false,
        singlepass: true,
        jit: true,
        native: true,
        object_file: true,
    }
}

/// The linked backends of this build, as a runtime value: the starting
/// point from which the embedding layer computes the process's
/// capability set.
pub fn compiled_in_capabilities() -> (c: Capabilities)
    ensures
        c == build_capabilities(),
{
    Capabilities {
        compiler: true,
        cranelift: true,
        llvm: false,
        singlepass: true,
        jit: true,
        native: true,
        object_file: true,
    }
}

/// Whether a capability set claims no backend this build lacks: any
/// honest narrowing of [`build_capabilities`], such as clearing
/// `native` on a machine without a linker.
pub open spec fn within_build(caps: Capabilities) -> bool {
    &&& caps.compiler ==> build_capabilities().compiler
    &&& caps.cranelift ==> build_capabilities().cranelift
    &&& caps.llvm ==> build_capabilities().llvm
    &&& caps.singlepass ==> build_capabilities().singlepass
    &&& caps.jit ==> build_capabilities().jit
    &&& caps.native ==> build_capabilities().native
    &&& caps.object_file ==> build_capabilities().object_file
}

/// Whether a capability set has the given compiler compiled in.
pub open spec fn has_compiler(caps: Capabilities, compiler: wasmer_compiler_t) -> bool {
    match compiler {
        wasmer_compiler_t::CRANELIFT => caps.cranelift,
        wasmer_compiler_t::LLVM => caps.llvm,
        wasmer_compiler_t::SINGLEPASS => caps.singlepass,
    }
}

/// Whether a capability set has the given engine compiled in.
pub open spec fn has_engine(caps: Capabilities, engine: wasmer_engine_t) -> bool {
    match engine {
        wasmer_engine_t::JIT => caps.jit,
        wasmer_engine_t::NATIVE => caps.native,
        wasmer_engine_t::OBJECT_FILE => caps.object_file,
    }
}

impl Default for wasmer_compiler_t {
    /// The build-dependent default compiler: the first of Cranelift,
    /// LLVM, Singlepass that is compiled in.
    fn default() -> (r: Self)
        ensures
            r == wasmer_compiler_t::CRANELIFT,
            has_compiler(build_capabilities(), r),
    {
        wasmer_compiler_t::CRANELIFT
    }
}

impl Default for wasmer_engine_t {
    /// The build-dependent default engine: the first of JIT, native,
    /// object-file that is compiled in.
    fn default() -> (r: Self)
        ensures
            r == wasmer_engine_t::JIT,
            has_engine(build_capabilities(), r),
    {
        wasmer_engine_t::JIT
    }
}

/// A configuration holds the compiler and the engine used by the store.
/// It is a plain value, consumed once when an engine is built from it.
#[allow(non_camel_case_types)]
#[derive(Debug, Copy, Clone, PartialEq, Eq, Structural)]
pub struct wasm_config_t {
    /// The selected execution backend.
    pub engine: wasmer_engine_t,
    /// The selected code-generation backend.
    pub compiler: wasmer_compiler_t,
}

impl Default for wasm_config_t {
    /// A configuration selecting the build's default backends.
    fn default() -> (r: Self)
        ensures
            r.engine == wasmer_engine_t::JIT,
            r.compiler == wasmer_compiler_t::CRANELIFT,
    {
        wasm_config_t { engine: wasmer_engine_t::JIT, compiler: wasmer_compiler_t::CRANELIFT }
    }
}

/// Create a new default configuration.
pub fn wasm_config_new() -> (r: Box<wasm_config_t>)
    ensures
        r.engine == wasmer_engine_t::JIT,
        r.compiler == wasmer_compiler_t::CRANELIFT,
{
    Box::new(wasm_config_t::default())
}

/// Updates the configuration to specify a particular compiler to use.
pub fn wasm_config_set_compiler(config: &mut wasm_config_t, compiler: wasmer_compiler_t)
    ensures
        final(config).compiler == compiler,
        final(config).engine == old(config).engine,
{
    config.compiler = compiler;
}

/// Updates the configuration to specify a particular engine to use.
pub fn wasm_config_set_engine(config: &mut wasm_config_t, engine: wasmer_engine_t)
    ensures
        final(config).engine == engine,
        final(config).compiler == old(config).compiler,
{
    config.engine = engine;
}

/// The resolved shape of an engine about to be constructed: which
/// execution backend, and which compiler it carries (`None` means the
/// engine is headless, performing no code generation).
#[derive(Debug, Copy, Clone, PartialEq, Eq, Structural)]
pub struct EnginePlan {
    /// The execution backend to construct.
    pub engine: wasmer_engine_t,
    /// The compiler the engine carries; `None` for a headless engine.
    pub compiler: Option<wasmer_compiler_t>,
}

/// The factory's validation and resolution, as a pure function.
///
/// Order: the selected compiler is checked first (when the build has
/// any code generation at all), then the selected engine. The
/// object-file engine is always constructed headless: a configured
/// compiler is validated but then deliberately ignored, as a matter of
/// interoperability policy.
pub open spec fn spec_plan(config: wasm_config_t, caps: Capabilities) -> Result<
    EnginePlan,
    crate::error::ConfigError,
> {
    if caps.compiler && !has_compiler(caps, config.compiler) {
        Err(crate::error::ConfigError::CodegenUnavailable(config.compiler))
    } else if !has_engine(caps, config.engine) {
        Err(crate::error::ConfigError::ExecutionUnavailable(config.engine))
    } else if caps.compiler && config.engine != wasmer_engine_t::OBJECT_FILE {
        Ok(EnginePlan { engine: config.engine, compiler: Some(config.compiler) })
    } else {
        Ok(EnginePlan { engine: config.engine, compiler: None })
    }
}

/// Validates a configuration against a capability set and resolves it
/// to the shape of the engine to construct, or reports which backend is
/// missing.
pub fn plan_engine(config: &wasm_config_t, caps: &Capabilities) -> (r: Result<
    EnginePlan,
    crate::error::ConfigError,
>)
    ensures
        r == spec_plan(*config, *caps),
{
    if caps.compiler {
        let compiler_ok: bool = match config.compiler {
            wasmer_compiler_t::CRANELIFT => caps.cranelift,
            wasmer_compiler_t::LLVM => caps.llvm,
            wasmer_compiler_t::SINGLEPASS => caps.singlepass,
        };
        if !compiler_ok {
            return Err(crate::error::ConfigError::CodegenUnavailable(config.compiler));
        }
    }
    let engine_ok: bool = match config.engine {
        wasmer_engine_t::JIT => caps.jit,
        wasmer_engine_t::NATIVE => caps.native,
        wasmer_engine_t::OBJECT_FILE => caps.object_file,
    };
    if !engine_ok {
        return Err(crate::error::ConfigError::ExecutionUnavailable(config.engine));
    }
    if caps.compiler && !matches!(config.engine, wasmer_engine_t::OBJECT_FILE) {
        Ok(EnginePlan { engine: config.engine, compiler: Some(config.compiler) })
    } else {
        Ok(EnginePlan { engine: config.engine, compiler: None })
    }
}

/// A valid configuration resolves to an engine, an invalid one to the
/// error naming the first missing backend: exactly when both selected
/// backends are compiled in (the compiler only counting in builds that
/// have code generation at all) does planning succeed.
pub proof fn lemma_plan_succeeds_iff_compiled_in(config: wasm_config_t, caps: Capabilities)
    ensures
        spec_plan(config, caps) is Ok <==> ((!caps.compiler || has_compiler(caps, config.compiler))
            && has_engine(caps, config.engine)),
        caps.compiler && !has_compiler(caps, config.compiler) ==> spec_plan(config, caps) == Result::<
            EnginePlan,
            crate::error::ConfigError,
        >::Err(crate::error::ConfigError::CodegenUnavailable(config.compiler)),
        (!caps.compiler || has_compiler(caps, config.compiler)) && !has_engine(caps, config.engine)
            ==> spec_plan(config, caps) == Result::<
            EnginePlan,
            crate::error::ConfigError,
        >::Err(crate::error::ConfigError::ExecutionUnavailable(config.engine)),
{
}

/// The object-file engine ignores the configured compiler: any two
/// configurations selecting it, whose compilers are compiled in,
/// resolve to one and the same headless plan.
pub proof fn lemma_object_file_ignores_codegen(
    c1: wasm_config_t,
    c2: wasm_config_t,
    caps: Capabilities,
)
    requires
        c1.engine == wasmer_engine_t::OBJECT_FILE,
        c2.engine == wasmer_engine_t::OBJECT_FILE,
        !caps.compiler || has_compiler(caps, c1.compiler),
        !caps.compiler || has_compiler(caps, c2.compiler),
    ensures
        spec_plan(c1, caps) == spec_plan(c2, caps),
        spec_plan(c1, caps) is Ok ==> spec_plan(c1, caps)->Ok_0.compiler is None,
{
}

} // verus!
