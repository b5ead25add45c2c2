[package]
name = "trait-winnower"
version = "0.1.0"
edition = "2021"
publish = false

[dependencies]
anyhow = "1"
clap = { version = "4", features = ["derive"] }
crc32fast = "1"
globset = "0.4"
ignore = "0.4"
prettyplease = "0.2"
proc-macro2 = { version = "1", features = ["span-locations"] }
quote = "1"
serde = { version = "1", features = ["derive"] }
syn = { version = "2", features = ["full", "visit", "visit-mut"] }
toml = "0.8"
