[package]
name = "zeroai"
version = "0.1.0"
edition = "2021"
publish = false

[dependencies]
regex = "=1.13.1"
aes = "=0.8.4"
ctr = "=0.9.2"
hmac = "=0.12.1"
sha2 = "=0.10.9"
sha1 = "=0.10.7"
rand_core = { version = "=0.6.4", features = ["getrandom"] }
rhai = "=1.27.0"
serde = { version = "=1.0.229", features = ["derive"] }
serde_json = "=1.0.154"
toml = "=0.8.23"
url = "=2.5.8"
cap-std = "=3.4.6"
qrcode = { version = "=0.14.1", default-features = false, features = ["svg"] }
chrono = "=0.4.45"
tokio = { version = "=1.54.1", features = ["rt-multi-thread", "net", "sync", "time", "macros", "io-util"] }
rusqlite = "=0.41.1"
boytacean = { version = "=0.13.2", features = ["gen-mock"] }
png = "=0.18.1"
tokio-tungstenite = "=0.30.0"
futures-util = { version = "=0.3.34", features = ["sink"] }
base64 = "=0.23.1"
reqwest = { version = "0.12", default-features = false, features = ["json", "rustls-tls"] }
