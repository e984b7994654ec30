[package]
name = "permissive_mtls"
version = "0.1.0"
edition = "2021"
publish = false

[dependencies]
actix-tls = { version = "3", features = ["rustls-0_23"] }
actix-web = { version = "4", default-features = false, features = ["macros", "rustls-0_23"] }
rustls = { version = "0.23", default-features = false, features = ["ring", "std", "tls12"] }
rustls-pemfile = "2"
serde = { version = "1", features = ["derive"] }
serde_json = "1"
tokio = { version = "1", features = ["net"] }
x509-parser = "0.16"
