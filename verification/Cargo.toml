[package]
name = "nft_marketplace"
version = "0.1.0"
edition = "2021"
publish = false

[dependencies]
cosmwasm-std = "=1.5.11"
cw-storage-plus = "=0.13.4"
cw-utils = "=0.13.4"
cw2 = "=0.13.4"
cw20 = "=0.13.4"
cw721 = "=0.13.4"
cw721-base = { version = "=0.13.4", features = ["library"] }
schemars = "=0.8.22"
semver = "=1.0.28"
serde = { version = "=1.0.229", default-features = false, features = ["derive"] }
thiserror = "=1.0.69"

[dev-dependencies]
cw-multi-test = "=0.13.4"
cw20-base = { version = "=0.13.4", features = ["library"] }
serde_json = "=1.0.154"
