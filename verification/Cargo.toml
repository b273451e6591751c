[package]
name = "mars_rcore"
version = "0.1.0"
edition = "2021"
publish = false

[dependencies]
riscv = "=0.16.1"
sbi = "=0.3.0"
lazy_static = { version = "=1.5.1", features = ["spin_no_std"] }
