use wasm_embedding::config::{
    compiled_in_capabilities, plan_engine, wasm_config_new, wasm_config_set_compiler,
    wasm_config_set_engine, wasm_config_t, wasmer_compiler_t, wasmer_engine_t, Capabilities,
    EnginePlan,
};
use wasm_embedding::error::ConfigError;

#[test]
fn default_config_selects_build_defaults() {
    let config = wasm_config_new();
    assert_eq!(config.engine, wasmer_engine_t::JIT);
    assert_eq!(config.compiler, wasmer_compiler_t::CRANELIFT);
}

#[test]
fn setters_record_the_choice() {
    let mut config = wasm_config_new();
    wasm_config_set_compiler(&mut config, wasmer_compiler_t::SINGLEPASS);
    wasm_config_set_engine(&mut config, wasmer_engine_t::NATIVE);
    assert_eq!(config.compiler, wasmer_compiler_t::SINGLEPASS);
    assert_eq!(config.engine, wasmer_engine_t::NATIVE);
}

#[test]
fn build_capability_set_value() {
    let caps = compiled_in_capabilities();
    assert!(caps.compiler && caps.cranelift && caps.singlepass);
    assert!(!caps.llvm);
    assert!(caps.jit && caps.native && caps.object_file);
}

#[test]
fn plan_accepts_compiled_in_pair() {
    let caps = compiled_in_capabilities();
    let config = wasm_config_t {
        engine: wasmer_engine_t::JIT,
        compiler: wasmer_compiler_t::CRANELIFT,
    };
    assert_eq!(
        plan_engine(&config, &caps),
        Ok(EnginePlan {
            engine: wasmer_engine_t::JIT,
            compiler: Some(wasmer_compiler_t::CRANELIFT),
        })
    );
}

#[test]
fn plan_rejects_missing_compiler_first() {
    let caps = compiled_in_capabilities();
    // even an engine that would itself be rejected is not reached while
    // the compiler check fails
    let mut caps_no_jit: Capabilities = caps;
    caps_no_jit.jit = false;
    let config = wasm_config_t {
        engine: wasmer_engine_t::JIT,
        compiler: wasmer_compiler_t::LLVM,
    };
    assert_eq!(
        plan_engine(&config, &caps_no_jit),
        Err(ConfigError::CodegenUnavailable(wasmer_compiler_t::LLVM))
    );
}

#[test]
fn plan_rejects_missing_engine() {
    let mut caps = compiled_in_capabilities();
    caps.native = false;
    let config = wasm_config_t {
        engine: wasmer_engine_t::NATIVE,
        compiler: wasmer_compiler_t::CRANELIFT,
    };
    assert_eq!(
        plan_engine(&config, &caps),
        Err(ConfigError::ExecutionUnavailable(wasmer_engine_t::NATIVE))
    );
}

#[test]
fn plan_without_any_compiler_goes_headless() {
    let mut caps = compiled_in_capabilities();
    caps.compiler = false;
    let config = wasm_config_t {
        engine: wasmer_engine_t::JIT,
        // no compiler check at all in a codegen-less build
        compiler: wasmer_compiler_t::LLVM,
    };
    assert_eq!(
        plan_engine(&config, &caps),
        Ok(EnginePlan { engine: wasmer_engine_t::JIT, compiler: None })
    );
}

#[test]
fn object_file_plan_ignores_configured_compiler() {
    let caps = compiled_in_capabilities();
    let with_cranelift = wasm_config_t {
        engine: wasmer_engine_t::OBJECT_FILE,
        compiler: wasmer_compiler_t::CRANELIFT,
    };
    let with_singlepass = wasm_config_t {
        engine: wasmer_engine_t::OBJECT_FILE,
        compiler: wasmer_compiler_t::SINGLEPASS,
    };
    let headless = Ok(EnginePlan { engine: wasmer_engine_t::OBJECT_FILE, compiler: None });
    assert_eq!(plan_engine(&with_cranelift, &caps), headless);
    assert_eq!(plan_engine(&with_singlepass, &caps), headless);
}
