[package]
name = "lightsync"
version = "0.1.0"
edition = "2021"
publish = false

[dependencies]
serde_json = "=1.0.151"
reqwest = { version = "=0.13.5", default-features = false, features = ["blocking", "form"] }
clap = "=4.6.7"
log = "=0.4.34"
simplelog = "=0.12.2"
