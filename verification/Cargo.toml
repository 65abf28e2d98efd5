[package]
name = "cb_signer"
version = "0.1.0"
edition = "2021"
publish = false

[dependencies]
alloy = { version = "=2.5.0", default-features = false, features = ["std"] }
axum = { version = "=0.7.9", default-features = false, features = ["http1", "json", "tokio"] }
axum-extra = { version = "0.9", default-features = false, features = ["typed-header"] }
bimap = "=0.6.3"
blst = "=0.3.17"
eyre = "0.6"
headers = "0.4"
k256 = { version = "=0.13.4", default-features = false, features = ["ecdsa", "std"] }
prost = "=0.13.5"
rand = "=0.8.8"
serde = { version = "1", features = ["derive"] }
thiserror = "2"
tokio = { version = "1", features = ["macros", "net", "rt-multi-thread", "sync"] }
tonic = { version = "=0.12.3", features = ["tls"] }
tracing = "0.1"
tree_hash = "=0.12.1"
url = "2"
uuid = { version = "=1.29.0", features = ["v4"] }
