[package]
name = "cakeup"
version = "0.1.0"
edition = "2021"
publish = false

[dependencies]
semver = "1"
clap = "2"
curl = "0.4"
failure = "0.1"
log = "0.4"
serde = "1"
serde_derive = "1"
serde_json = "1"
unzip = "*"
