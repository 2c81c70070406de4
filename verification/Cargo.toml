[package]
name = "zhihu_daily"
version = "0.1.0"
edition = "2021"
publish = false

[dependencies]
anyhow = "*"
async-dup = "*"
async-h1 = "*"
async-native-tls = "*"
http-types = "*"
serde = { version = "*", features = ["derive"] }
smol = "*"
