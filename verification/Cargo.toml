[package]
name = "composable_query"
version = "0.1.0"
edition = "2021"
publish = false

[dependencies]
anyhow = "=1.0.104"
darling = "=0.20.11"
edgedb-protocol = "=0.6.1"
edgedb-tokio = "=0.5.1"
nonempty = "=0.12.0"
proc-macro2 = "=1.0.107"
quote = "=1.0.47"
serde = "=1.0.229"
serde_json = "=1.0.151"
syn = { version = "=2.0.119", features = ["full"] }
