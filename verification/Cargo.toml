[package]
name = "pannotia"
version = "0.1.0"
edition = "2021"
publish = false

[dependencies]
bitvec = "1"
crc = "3"
log = "0.4"
clap = { version = "4", features = ["derive"] }
clio = { version = "*", features = ["clap-parse"] }
env_logger = "*"
png = "*"
parse_int = "*"
