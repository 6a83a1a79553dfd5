[package]
name = "cargo_mutants"
version = "0.1.0"
edition = "2021"
publish = false

[dependencies]
proc-macro2 = { version = "=1.0.51", default-features = false, features = ["span-locations"] }
quote = { version = "=1.0.23", default-features = false }
syn = { version = "=1.0.109", default-features = false, features = ["clone-impls", "extra-traits", "full", "parsing", "printing", "visit"] }
