[package]
name = "metis_token"
version = "0.1.0"
edition = "2021"
publish = false

[dependencies]
hex = "=0.4.3"
ink_env = "=3.0.0-rc4"
ink_prelude = "=3.0.0-rc4"
ink_primitives = "=3.0.0-rc4"
ink_storage = "=3.0.0-rc4"
ink_storage_derive = "=3.0.0-rc4"
parity-scale-codec = { version = "=2.3.1", features = ["derive"] }
scale-info = { version = "=0.6.0", features = ["derive"] }
