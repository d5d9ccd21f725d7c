[package]
name = "tonk_game"
version = "0.1.0"
edition = "2021"
publish = false

[dependencies]
rand = "0.8"
actix-web = "4"
redis = "*"
reqwest = { version = "*", default-features = false, features = ["json"] }
serde = { version = "1", features = ["derive"] }
serde_json = "1"
log = "0.4"
num-bigint = { version = "0.4", features = ["serde"] }
graphql_client = { version = "*", default-features = false }
