[package]
name = "deepwiki_rs"
version = "0.1.0"
edition = "2021"
publish = false

[dependencies]
anyhow = "1"
escape_string = "*"
headless_chrome = { version = "1", default-features = false }
mermaid-rs = "*"
pathdiff = "0.2"
reqwest = { version = "0.12", default-features = false, features = ["json"] }
schemars = "*"
serde = { version = "1", features = ["derive"] }
serde_json = "1"
unescape = "*"
