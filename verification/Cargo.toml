[package]
name = "hwtools"
version = "0.1.0"
edition = "2021"
publish = false

[dependencies]
xous = "0.9.69"
xous-api-names = "0.9.70"
xous-api-ticktimer = "0.9.68"
xous-api-log = "0.1.68"
xous-semver = "0.1.5"
log = "0.4.14"
