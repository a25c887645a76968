[package]
name = "plugin_lifecycle"
version = "0.1.0"
edition = "2021"
publish = false

[dependencies]
flume = "0.11"
libloading = "=0.8.9"
log = "=0.4.34"
zenoh-result = "=1.10.1"
zenoh-util = "=1.10.1"
