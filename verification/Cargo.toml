[package]
name = "servo_capi"
version = "0.1.0"
edition = "2021"
publish = false

[dependencies]
http = "1"
euclid = "0.22"
parking_lot = "0.12"
dpi = "0.1"
log = "0.4"
webrender_api = "*"
