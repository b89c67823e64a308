[package]
name = "tinyvmm"
version = "0.1.0"
edition = "2021"
publish = false

[dependencies]
actix-web = "4"
backoff = { version = "0.4", features = ["tokio"] }
byte-unit = "=4.0.19"
clap = { version = "4", features = ["derive"] }
clap-verbosity-flag = "2"
data-encoding = "=2.11.1"
env_logger = "0.10"
eyre = "0.6"
futures = "0.3"
handlebars = "=4.5.0"
hyper = { version = "0.14", features = ["full"] }
hyperlocal = "0.8"
ipnet = "=2.12.2"
log = "0.4"
rand = "=0.8.8"
ring = "=0.17.14"
rtnetlink = "0.13"
serde_json = "=1.0.154"
sled = "0.34"
tokio = { version = "1", features = ["full"] }
trust-dns-proto = "0.22"
trust-dns-server = "0.22"
zbus = "3"
zvariant = "3"
