[package]
name = "officedays"
version = "0.2.3"
edition = "2021"
publish = false

[dependencies]
chrono = "0.4"
dirs = "*"
serde = { version = "1", features = ["derive"] }
toml = "*"
