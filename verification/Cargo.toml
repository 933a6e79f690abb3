[package]
name = "hypercraft"
version = "0.1.0"
edition = "2021"
publish = false

[dependencies]
bit_field = "=0.10.3"
raw-cpuid = "=10.7.0"
riscv-decode = "=0.2.3"
sbi-rt = { version = "=0.0.2", features = ["integer-impls", "legacy"] }
x86 = "=0.52.0"
x86_64 = { version = "=0.14.13", default-features = false, features = ["instructions"] }
