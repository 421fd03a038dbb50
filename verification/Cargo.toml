[package]
name = "xokdinst"
version = "0.2.0"
edition = "2021"
publish = false

[dependencies]
anyhow = "1"
clap = "2.33"
directories = "2"
lazy_static = "1"
reqwest = { version = "0.11", default-features = false, features = ["blocking", "json", "rustls-tls"] }
serde = "1"
serde_derive = "1"
serde_json = "1"
serde_yaml = "0.8"
structopt = "0.2"
sys-info = "0.9"
tabwriter = "1"
tempfile = "3"
url = "2"
