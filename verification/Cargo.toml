[package]
name = "symbolapi"
version = "0.1.0"
edition = "2021"
publish = false

[dependencies]
breakpad-symbols = "=0.27.0"
flate2 = "=1.1.10"
hyper = "=0.10.16"
log = "=0.4.34"
log4rs = { version = "=1.4.0", features = ["toml_format"] }
rustc-serialize = "=0.3.25"
toml = "=0.2.1"
