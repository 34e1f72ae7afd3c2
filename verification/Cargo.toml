[package]
name = "devman"
version = "0.1.0"
edition = "2021"
publish = false

[dependencies]
addr = "0.15"
regex = "1"
clap = "4"
flate2 = "1"
libc = "0.2"
reqwest = { version = "0.12", default-features = false, features = ["blocking", "rustls-tls"] }
sqlx = { version = "*", default-features = false, features = ["any", "mysql", "runtime-tokio"] }
sudo = "0.6"
tar = "0.4"
tokio = { version = "1", features = ["rt"] }
users = "0.11"
