[package]
name = "nerva"
version = "0.1.0"
edition = "2021"
publish = false

[dependencies]
anyhow = "1"
chrono = "0.4"
dotenv = "0.15"
pbr = "1"
serde = "1"
serde_derive = "1"
serde_json = "1"
ureq = "2"
users = "0.11"
