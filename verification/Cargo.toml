[package]
name = "healthchecks"
version = "3.2.0"
edition = "2021"
publish = false

[dependencies]
clap = { version = "4", features = ["derive"] }
color-eyre = "0.6"
comfy-table = "7"
serde = "1"
serde_derive = "1"
serde_json = "1"
subprocess = "0.2"
thiserror = "1"
time = { version = "0.3", features = ["parsing"] }
ureq = { version = "2", features = ["json"] }
uuid = { version = "1", features = ["v4"] }
