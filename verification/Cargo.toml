[package]
name = "nucleus"
version = "0.1.0"
edition = "2021"
publish = false

[dependencies]
cranelift-codegen = "=0.22.0"
cranelift-entity = "=0.22.0"
cranelift-wasm = "=0.22.0"
target-lexicon = "=0.0.3"
