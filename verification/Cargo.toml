[package]
name = "cargo_test_fuzz"
version = "0.1.0"
edition = "2021"
publish = false

[dependencies]
anyhow = "1"
cargo_metadata = "0.18"
clap = { version = "4", features = ["derive", "cargo"] }
darling = "0.13"
heck = "0.4"
paste = "1"
proc-macro2 = "1"
quote = "1"
remain = "0.2"
serde = { version = "1", features = ["derive"] }
subprocess = "0.2"
syn = { version = "1", features = ["full", "extra-traits"] }
unzip-n = "0.1"
