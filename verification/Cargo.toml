[package]
name = "keepldr"
version = "0.1.0"
edition = "2021"
publish = false

[dependencies]
anyhow = "=1.0.104"
colorful = "=0.2.2"
kvm-bindings = "=0.14.1"
kvm-ioctls = "=0.25.0"
libc = "=0.2.190"
mmarinus = "=0.4.0"
netlink-packet-core = "=0.2.4"
netlink-packet-route = "=0.8.0"
netlink-sys = "=0.7.0"
nix = "=0.22.3"
sev = "=8.0.0"
structopt = "=0.3.26"
