[package]
name = "compiler_llvm_context"
version = "0.1.0"
edition = "2021"
publish = false

[dependencies]
anyhow = "=1.0.104"
inkwell = { version = "=0.2.0", default-features = false, features = ["llvm13-0-no-llvm-linking", "target-x86"] }
sha3 = "=0.10.9"
