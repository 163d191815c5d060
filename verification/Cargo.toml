[package]
name = "vault_hook"
version = "0.1.0"
edition = "2021"
publish = false

[dependencies]
anchor-lang = { version = "=0.32.2", features = ["init-if-needed"] }
anchor-spl = "=0.32.2"
spl-tlv-account-resolution = "=0.10.0"
