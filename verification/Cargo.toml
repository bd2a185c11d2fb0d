[package]
name = "chainsights_client"
version = "0.1.0"
edition = "2021"
publish = false

[dependencies]
anyhow = "*"
base64 = "*"
clap = { version = "*", features = ["derive"] }
futures = "*"
hickory-resolver = "*"
packageurl = "*"
reqwest = { version = "*", default-features = false }
serde = { version = "*", features = ["derive"] }
serde_json = "*"
sha2 = "*"
sigstore = { version = "*", default-features = false }
tokio = { version = "*", features = ["macros", "rt-multi-thread"] }
x509-parser = "*"

[dev-dependencies]
p256 = { version = "*", features = ["ecdsa"] }
rcgen = "*"
