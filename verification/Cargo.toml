[package]
name = "fwknox"
version = "0.1.0"
edition = "2021"
publish = false

[dependencies]
base64 = "*"
caps = "*"
clap = { version = "*", features = ["derive"] }
humantime-serde = "*"
ipnet = "*"
libc = "*"
nftables = "*"
nix = { version = "*", features = ["signal", "process", "socket", "fs"] }
ring = "*"
rmp-serde = "*"
serde = { version = "*", features = ["derive"] }
signal-hook = "*"
thiserror = "*"
toml = "*"
tracing = "*"
tracing-subscriber = { version = "*", features = ["env-filter"] }
zeroize = { version = "*", features = ["derive"] }

[dev-dependencies]
serde_json = "*"
tempfile = "*"
