[package]
name = "errdef"
version = "0.1.0"
edition = "2021"
publish = false

[dependencies]
actix-web = "=4.15.0"
diesel = "=2.3.14"
serde = { version = "=1.0.229", features = ["derive"] }
serde_json = "=1.0.151"
toml = "=0.8.23"
