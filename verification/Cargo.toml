[package]
name = "authcore"
version = "0.1.0"
edition = "2021"
publish = false

[dependencies]
bcrypt = "=0.19.3"
rust-crypto = "=0.2.36"
chrono = "=0.4.45"
uuid = { version = "=1.27.0", features = ["v4"] }
postgres = { version = "=0.19.14", features = ["with-chrono-0_4", "with-uuid-1"] }
r2d2 = "=0.8.10"
r2d2_postgres = "=0.18.2"
