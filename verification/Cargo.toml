[package]
name = "fan_governance"
version = "0.1.0"
edition = "2021"
publish = false

[dependencies]
anchor-lang = "*"
pinocchio = "*"
pinocchio-log = "*"
