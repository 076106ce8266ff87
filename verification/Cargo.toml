[package]
name = "pico2hubris"
version = "0.1.0"
edition = "2021"
publish = false

[dependencies]
rp235x-pac = "=0.1.0"
cortex-m = "0.7"
riscv = "*"
