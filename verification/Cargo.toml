[package]
name = "shuli"
version = "0.1.0"
edition = "2021"
publish = false

[dependencies]
aes = "=0.9.4"
aes-kw = "=0.3.1"
aws-lc-rs = "=1.19.0"
cmac = "=0.8.0"
elliptic-curve = "=0.14.3"
env_logger = "=0.11.11"
futures = "=0.3.34"
genetlink = "=0.3.0"
getrandom = { version = "=0.4.3", features = ["sys_rng"] }
log = "=0.4.35"
mozim = "=0.3.3"
netlink-packet-core = "=0.9.0"
netlink-packet-generic = "=0.5.0"
netlink-sys = "=0.9.0"
nispor = "=2.0.3"
p256 = { version = "=0.14.0", features = ["arithmetic", "ecdh", "hash2curve"] }
rmsd_yaml = "=0.2.0"
rtnetlink = "=0.23.0"
rustls = "=0.23.46"
serde = { version = "=1.0.229", features = ["derive"] }
serde_yaml = "=0.9.34"
tokio = { version = "=1.54.1", features = ["full"] }
wl-nl80211 = "=0.8.0"
