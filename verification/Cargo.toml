[package]
name = "adwaita_bridge"
version = "0.1.0"
edition = "2021"
publish = false

[dependencies]
atomicbox = "=0.4.0"
rand = "=0.8.8"
flume = "=0.12.0"
ash = "=0.37.3"
wgpu = "=0.20.1"
wgpu-hal = "=0.21.1"
