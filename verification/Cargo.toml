[package]
name = "rftps"
version = "0.1.0"
edition = "2021"
publish = false

[dependencies]
rand = "0.9"
rand_core = { version = "0.6", features = ["getrandom"] }
hex = "0.4"
ed25519-dalek = { version = "2", features = ["rand_core"] }
percent-encoding = "2"
serde = { version = "1", features = ["derive"] }
serde_json = "1"
clap = { version = "4", features = ["derive"] }
tokio = { version = "1", features = ["full"] }
async-trait = "0.1"
thiserror = "2"
libunftp = "*"
unftp-core = "*"
unftp-sbe-fs = "*"
suppaftp = { version = "*", features = ["tokio-rustls"] }
rustls = { version = "0.23", default-features = false, features = ["ring", "std", "logging", "tls12"] }
tokio-rustls = { version = "0.26", default-features = false, features = ["ring", "logging", "tls12"] }
webpki-roots = "*"
reqwest = { version = "0.12", default-features = false, features = ["rustls-tls", "json"] }

[dev-dependencies]
tempfile = "3"
