[package]
name = "phorg"
version = "0.1.0"
edition = "2021"
publish = false

[dependencies]
anyhow = "*"
chrono = "*"
clap = { version = "*", features = ["derive"] }
crc32fast = "*"
kamadak-exif = "*"
human-panic = "*"
indicatif = "*"
infer = "*"
md-5 = "*"
nom-exif = "*"
rayon = "*"
serde_json = "*"
sha1 = "*"
sha2 = "*"
tracing = "*"
tracing-subscriber = { version = "*", features = ["env-filter"] }
