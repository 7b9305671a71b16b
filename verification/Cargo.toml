[package]
name = "os_glue"
version = "0.1.0"
edition = "2021"
publish = false

[dependencies]
mac_address = "=1.2.1"
riot-sys = "=0.7.16"
smoltcp = "0.7"
spin = "=0.12.3"
time = "0.1"
