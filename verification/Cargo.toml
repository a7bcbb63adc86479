[package]
name = "provenian"
version = "0.1.0"
edition = "2021"
publish = false

[dependencies]
biscuit = "=0.8.0"
chrono = { version = "=0.4.45", default-features = false, features = ["clock"] }
serde = { version = "=1.0.229", features = ["derive"] }
serde_json = "=1.0.154"
time = "=0.1.45"
ulid = "=3.0.0"
actix-web = "=4.18.1"
async-trait = "=0.1.92"
debil = "=0.4.2"
debil-mysql = "=0.5.2"
dotenv = "=0.15.0"
env_logger = "=0.11.11"
http = "=1.5.0"
http-body-util = "=0.1.5"
hyper = { version = "=1.12.0", features = ["server", "http1"] }
hyper-util = { version = "=0.1.21", features = ["tokio"] }
log = "=0.4.35"
# mysql_async 0.26 uses mio::net and mio::Poll without asking for these features
mio = { version = "=0.7.14", features = ["os-poll", "net"] }
mysql_async = "=0.26.1"
path-tree = "=0.8.3"
reqwest = { version = "=0.12.28", default-features = false, features = ["blocking", "json", "rustls-tls"] }
tokio = { version = "=1.54.1", features = ["full"] }
