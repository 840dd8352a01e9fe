[package]
name = "llvm_lib"
version = "0.1.0"
edition = "2021"
publish = false

[dependencies]
libc = "0.2"
llvm-sys = { version = "191", features = ["no-llvm-linking"] }
