[package]
name = "dauth"
version = "0.1.0"
edition = "2021"
publish = false

[dependencies]
hex = "*"
serde = { version = "*", features = ["derive"] }
serde_derive = "*"
actix-web = "*"
mysql = "*"
rayon = "*"
openssl = "*"
