[package]
name = "oms"
version = "0.1.0"
edition = "2021"
publish = false

[dependencies]
regex = "1"
num_cpus = "1"
diacritics = "*"
urlencoding = "2"
sha256 = { version = "1", default-features = false }
serde = { version = "1", features = ["derive"] }
serde_json = "1"
colored = "2"
chrono = "0.4"
rand = "0.8"
once_cell = "1"
dotext = "*"
