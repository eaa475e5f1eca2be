[package]
name = "coop_executor"
version = "0.1.0"
edition = "2021"
publish = false

[dependencies]
unicycle = "=0.9.4"
raw-cpuid = "=11.6.0"
spin = "=0.12.3"
lazy_static = "=1.5.1"
x86_64 = { version = "=0.15.5", default-features = false, features = ["instructions"] }
log = "=0.4.34"
