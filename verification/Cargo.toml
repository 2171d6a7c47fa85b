[package]
name = "voter_weight_addin_deposits"
version = "0.1.0"
edition = "2021"
publish = false

[dependencies]
anchor-lang = "=0.24.2"
anchor-spl = { version = "=0.24.2", features = ["governance"] }
spl-governance = { version = "=2.2.4", features = ["no-entrypoint"] }
spl-governance-addin-api = "=0.1.2"
