[package]
name = "tokimo-package-mail"
version = "0.1.0"
edition = "2021"
publish = false

[dependencies]
async-imap = { version = "*", default-features = false, features = ["runtime-tokio"] }
base64 = "0.22"
chrono = { version = "0.4", default-features = false, features = ["std", "serde"] }
futures = "0.3"
lettre = { version = "0.11", default-features = false, features = ["builder", "smtp-transport", "tokio1", "tokio1-rustls-tls"] }
mailparse = "*"
rustls = { version = "0.23", default-features = false, features = ["ring", "std", "tls12", "logging"] }
rustls-pki-types = "1"
serde = { version = "1", features = ["derive"] }
thiserror = "*"
tokio = { version = "1", features = ["net"] }
tokio-rustls = { version = "0.26", default-features = false, features = ["ring", "tls12", "logging"] }
tokio-util = { version = "0.7", features = ["compat"] }
tracing = "0.1"
utf7-imap = "*"
webpki-roots = "*"
