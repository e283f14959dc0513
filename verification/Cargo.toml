[package]
name = "fw16_led_matrixd"
version = "0.1.0"
edition = "2021"
publish = false

[dependencies]
clap = { version = "4", features = ["derive"] }
clap-num = "1"
glob = "0.3"
image = "0.25"
interprocess = "2"
log = "0.4"
log4rs = "1"
nix = { version = "0.29", features = ["fs", "process", "resource", "signal"] }
serde = { version = "1", features = ["derive"] }
serde_json = "1"
serial = "0.4"
toml = "0.8"
