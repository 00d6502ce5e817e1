[package]
name = "check_sql"
version = "0.1.0"
edition = "2021"
publish = false

[dependencies]
anyhow = "1"
log = "0.4"
tiberius = { version = "0.12", default-features = false, features = ["tds73"] }
