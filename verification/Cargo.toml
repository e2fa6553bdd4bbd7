[package]
name = "synapse_admin"
version = "0.1.0"
edition = "2021"
publish = false

[dependencies]
serde = "=1.0.229"
serde_json = "=1.0.151"
thiserror = "=2.0.21"
url = "=2.5.8"
reqwest = { version = "=0.13.5", default-features = false, features = ["json", "query"] }
