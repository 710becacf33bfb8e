[package]
name = "digitsum"
version = "0.1.0"
edition = "2021"
publish = false

[dependencies]
anyhow = "1"
clap = { version = "4", features = ["derive"] }
halo2_proofs = "0.3"
hex = "0.4"
rand_core = { version = "0.6", features = ["getrandom"] }
slog = "2"
slog-async = "2"
slog-scope = "4"
slog-term = "2"
