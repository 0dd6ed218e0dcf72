[package]
name = "ftp-paperless-bridge"
version = "0.1.0"
edition = "2021"
publish = false

[dependencies]
async-tempfile = "=0.8.0"
async-trait = "0.1"
clap = { version = "=4.6.7", features = ["derive", "env"] }
color-eyre = "=0.6.5"
env_logger = "=0.11.11"
libunftp = "=0.21.1"
log = "=0.4.34"
paperless_ngx_api = "=0.3.0"
tokio = { version = "1", features = ["full"] }
