[package]
name = "rp_sync"
version = "0.1.0"
edition = "2021"
publish = false

[dependencies]
portable-atomic = "1"
rp2040-hal = "*"
rp235x-hal = "*"
