[package]
name = "zephyr_vault"
version = "0.2.0"
edition = "2021"
publish = false

[dependencies]
aes-gcm = "0.10"
argon2 = "0.5"
base64 = "0.22"
rand = "0.8"
serde = { version = "1", features = ["derive"] }
serde_json = "1"
clap = { version = "4", features = ["derive"] }
anyhow = "1"
colored = "2"
csv = "1"
rpassword = "7"
arboard = { version = "3", default-features = false }
wasm-bindgen = "0.2"
