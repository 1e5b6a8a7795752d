[package]
name = "caravel_hal"
version = "1.0.6"
edition = "2021"
publish = false

[dependencies]
anyhow = { version = "1", default-features = false }
bitfield-struct = "*"
caravel-pac = "*"
critical-section = "1"
embedded-hal = "1"
embedded-io = "*"
riscv = "*"
riscv-rt = "*"
vexriscv = "*"
