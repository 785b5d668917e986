[package]
name = "crab-dlna"
version = "0.3.0"
edition = "2021"
publish = false

[dependencies]
arboard = { version = "3", default-features = false }
aspasia = "*"
clap = { version = "4", features = ["derive"] }
crossterm = "*"
futures-util = "0.3"
http = "*"
local-ip-address = "*"
log = "0.4"
pin-utils = "0.1"
ratatui = "*"
rupnp = "*"
simple_logger = "*"
slugify = "*"
ssdp-client = "*"
tokio = { version = "1", features = ["full"] }
warp = "0.3"
xml-rs = "*"
