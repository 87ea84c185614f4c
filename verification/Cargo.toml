[package]
name = "locd"
version = "0.1.0"
edition = "2021"
publish = false

[dependencies]
anyhow = "=1.0.104"
bincode = "=1.3.3"
copernica-broker = "=0.1.0"
copernica-common = "=0.1.0"
copernica-links = "=0.1.0"
copernica-packets = "=0.1.0"
copernica-protocols = "=0.1.0"
crossbeam-channel = "=0.5.17"
cryptoxide = "=0.4.4"
log = "=0.4.34"
rand = "=0.8.8"
