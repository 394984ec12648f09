[package]
name = "libaria2"
version = "0.1.0"
edition = "2021"
publish = false

[dependencies]
cxx = "1.0"
log = "0.4"
thiserror = "1.0"
