[package]
name = "arena_system"
version = "0.1.0"
edition = "2021"
publish = false

[dependencies]
vec_cell = "*"
thiserror = "1"
syn = { version = "2", features = ["full", "extra-traits"] }
quote = "1"
proc-macro2 = "1"
