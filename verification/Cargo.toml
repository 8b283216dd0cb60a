[package]
name = "argon_fan_ctl"
version = "0.1.0"
edition = "2021"
publish = false

[dependencies]
num = "=0.4.3"
serde = { version = "=1.0.229", features = ["derive"] }
toml = "=1.1.8"
log = "=0.4.34"
env_logger = "=0.11.11"
err-derive = "=0.3.1"
exitcode = "=1.1.2"
ctrlc = "=3.5.2"
structopt = "=0.3.26"
chrono = "=0.4.45"
rppal = "=0.22.1"
rpi-mailbox = "=0.2.0"
libc = "=0.2.191"
