[package]
name = "resweb"
version = "0.1.0"
edition = "2021"
publish = false

[dependencies]
alcoholic_jwt = "*"
regex = "*"
serde_json = "*"
url = "*"
actix-web = "*"
actix-session = { version = "*", features = ["cookie-session"] }
actix-files = "*"
actix-web-httpauth = "*"
awc = "*"
clap = "*"
serde = { version = "*", features = ["derive"] }
serde_yaml = "*"
handlebars = "*"
juniper = "*"
juniper_actix = "*"
tokio = { version = "*", features = ["rt", "rt-multi-thread"] }
get_if_addrs = "*"
futures-util = "*"
log = "*"
pretty_env_logger = "*"
http = "*"
