[package]
name = "frunze_api"
version = "0.1.0"
edition = "2021"
publish = false

[dependencies]
url = "2"
serde_json = "1"
zip = { version = "0.6", default-features = false, features = ["deflate"] }
serde = { version = "1", features = ["derive"] }
actix-web = { version = "4", default-features = false }
hyper = { version = "0.14", features = ["client", "http1", "tcp"] }
mongodb = "2"
bson = "2"
docopt = "1"
env_logger = "*"
log = "0.4"
failure = "0.1"
futures = "0.3"
bytes = "1"
uuid = { version = "1", features = ["v4"] }
