[package]
name = "wasm_embedding"
version = "0.1.0"
edition = "2021"
publish = false

[dependencies]
wasmer-vm = "=1.0.2"
wasmer-compiler = "=1.0.2"
wasmer-compiler-cranelift = "=1.0.2"
wasmer-compiler-singlepass = "=1.0.2"
wasmer-engine-jit = { version = "=1.0.2", features = ["compiler"] }
wasmer-engine-native = { version = "=1.0.2", features = ["compiler"] }
wasmer-engine-object-file = { version = "=1.0.2", features = ["compiler"] }

[dev-dependencies]
wasmer-types = "=1.0.2"
