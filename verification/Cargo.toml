[package]
name = "fair_lp_oracle"
version = "0.1.0"
edition = "2021"
publish = false

[dependencies]
cosmwasm-std = "0.16"
cw2 = "0.8"
cw20 = "0.8"
cw-storage-plus = "0.8"
schemars = "0.8"
serde = { version = "1.0", features = ["derive"] }
terra-cosmwasm = "2.2"
