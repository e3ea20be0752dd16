[package]
name = "openstack"
version = "0.1.0"
edition = "2021"
publish = false

[dependencies]
hyper = "*"
time = "*"
serde_json = "*"
