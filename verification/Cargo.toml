[package]
name = "moosicbox"
version = "0.1.0"
edition = "2021"
publish = false

[dependencies]
qstring = "0.7"
url = "2"
regex = "1"
base64 = "0.22"
opus = "0.3"
ogg = "0.9"
audiopus = "0.2"
fdk-aac = "0.7"
flume = "0.11"
tokio = { version = "1", features = ["rt", "rt-multi-thread", "macros", "sync", "time"] }
futures = "0.3"
reqwest = { version = "0.12", default-features = false, features = ["json", "rustls-tls"] }
serde = { version = "1", features = ["derive"] }
serde_json = "1"
thiserror = "1"
log = "0.4"
maud = "0.26"
md5 = "0.7"
const_format = "0.2"
async-trait = "0.1"
actix-web = { version = "4", default-features = false }
sqlite = "*"
