[package]
name = "autoclockspeed"
version = "0.1.0"
edition = "2021"
publish = false

[dependencies]
cached = "*"
colored = "*"
efcl = "*"
env_logger = "*"
globset = "*"
home = "*"
log = "*"
nix = { version = "*", features = ["user", "ioctl", "term"] }
rand = "*"
rasciigraph = "*"
serde = { version = "1", features = ["derive"] }
serde_json = "1"
structopt = "0.3"
termion = "*"
time = "*"
toml = "*"
