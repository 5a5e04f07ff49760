[package]
name = "conductor"
version = "0.1.0"
edition = "2021"
publish = false

[dependencies]
mime_guess = "=2.0.5"
ds = "=1.2.4"
actix = "=0.10.0"
actix-rt = "=1.1.1"
actix-web = { version = "=3.3.3", default-features = false }
actix-web-actors = "=3.0.0"
confy = "=0.4.0"
env_logger = "=0.10.2"
gilrs = "*"
log = "0.4"
tinyfiledialogs = "=3.9.1"
serde = { version = "1", features = ["derive"] }
serde_json = "1"
