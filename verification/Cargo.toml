[package]
name = "wired_script"
version = "0.1.0"
edition = "2021"
publish = false

[dependencies]
blake3 = "1"
glam = "*"
serde = { version = "1", features = ["derive"] }
anyhow = "1"
smol_str = "*"
