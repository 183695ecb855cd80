[package]
name = "bucket_gateway"
version = "0.1.0"
edition = "2021"
publish = false

[dependencies]
actix-web = { version = "*", default-features = false, features = ["macros"] }
config = { version = "*", default-features = false, features = ["toml"] }
rusoto_core = { version = "*", default-features = false, features = ["rustls"] }
rusoto_s3 = { version = "*", default-features = false, features = ["rustls"] }
tokio = { version = "*", features = ["io-util"] }
