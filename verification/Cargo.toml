[package]
name = "baby_fuzzer"
version = "0.1.0"
edition = "2021"
publish = false

[dependencies]
libafl = { version = "=0.11.2", default-features = false, features = ["std", "derive", "prelude", "tui_monitor"] }
libafl_bolts = { version = "=0.11.2", default-features = false, features = ["std", "derive", "prelude", "xxh3"] }
