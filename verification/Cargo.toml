[package]
name = "codeowners_lsp"
version = "0.1.0"
edition = "2021"
publish = false

[dependencies]
codeowners = "*"
serde = { version = "1", features = ["derive"] }
serde_json = "1"
tokio = { version = "1", features = ["io-std", "macros", "rt-multi-thread"] }
tower-lsp = "*"
zed_extension_api = "*"
