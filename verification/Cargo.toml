[package]
name = "unaligned_trap"
version = "0.1.0"
edition = "2021"
publish = false

[dependencies]
riscv = "0.10"
riscv-rt = "0.11"
