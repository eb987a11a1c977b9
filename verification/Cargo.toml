[package]
name = "scmi"
version = "0.1.0"
edition = "2021"
publish = false

[dependencies]
spin = "*"
mbarrier = "*"
smccc = "*"
aarch64-cpu-ext = "*"
tock-registers = "*"
nb = "*"
log = "*"
