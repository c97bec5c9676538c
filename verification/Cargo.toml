[package]
name = "multi_account"
version = "0.1.0"
edition = "2021"
publish = false

[dependencies]
chrono = "=0.4.45"
serde = { version = "=1.0.229", features = ["derive"] }
serde_json = "=1.0.154"
tokio = { version = "=1.54.1", features = ["rt", "macros", "sync"] }
# app/ decodes the payload of the saved JWTs (the id token's claims and the
# access token's expiry) when it reads auth.json; the module that does this in
# the Codex login crate is not part of this project.
base64 = "=0.22.1"
