[package]
name = "medic"
version = "0.1.0"
edition = "2021"
publish = false

[dependencies]
console = "=0.15.11"
which = "=8.0.6"
regex = "=1.13.1"
envsubst = "=0.2.1"
serde = { version = "=1.0.229", features = ["derive"] }
serde_json = "=1.0.154"
toml = { version = "=1.1.8", features = ["preserve_order"] }
clap = { version = "=4.6.7", features = ["derive"] }
clap_complete = "=4.6.11"
arboard = "=3.7.0"
retrogress = "=1.5.0"
once_cell = "=1.21.4"
terminal-colorsaurus = "=1.0.3"
