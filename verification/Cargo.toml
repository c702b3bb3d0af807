[package]
name = "bowerbird_downloader"
version = "0.1.0"
edition = "2021"
publish = false

[dependencies]
sanitize-filename = "*"
reqwest = { version = "*", default-features = false, features = ["blocking"] }
chrono = "*"
colored = "*"
