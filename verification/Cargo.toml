[package]
name = "jvm_find"
version = "0.1.1"
edition = "2021"
publish = false

[dependencies]
glob = "0.3"
log = "0.4"
thiserror = "1"

[dev-dependencies]
tempfile = "3"
