[package]
name = "goxlr_daemon"
version = "0.1.0"
edition = "2021"
publish = false

[dependencies]
actix-web = { version = "4", default-features = false, features = ["macros"] }
byteorder = "1"
fancy-regex = "0.13"
shell-words = "1"
windows-args = "0.2"
xmltree = "0.10"
mime_guess = "2"
ritelinked = { version = "0.3", default-features = false }
rust-ini = "0.21"
serde_json = { version = "1", features = ["float_roundtrip"] }
jsonpath-rust = "1"
actix-cors = "0.7"
actix-ws = "0.3"
actix-multipart = { version = "0.7", default-features = false }
tokio = { version = "1", features = ["full"] }
clap = { version = "4", features = ["derive"] }
anyhow = "1"
serde = { version = "1", features = ["derive"] }
json-patch = "2"
directories = "5"
glob = "0.3"
notify = "6"
log = "0.4"
simplelog = "0.12"
which = "6"
opener = "0.7"
reqwest = { version = "0.12", default-features = false, features = ["stream"] }
futures-util = "0.3"
chrono = "0.4"
interprocess = { version = "2", features = ["tokio"] }
