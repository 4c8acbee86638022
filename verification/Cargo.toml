[package]
name = "bootloader"
version = "0.1.0"
edition = "2021"
publish = false

[dependencies]
redox_uefi = "=0.1.14"
x86 = "=0.52.0"
redoxfs = { version = "=0.4.4", default-features = false }
redox_syscall = "=0.2.16"
