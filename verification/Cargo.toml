[package]
name = "config_sub"
version = "0.1.0"
edition = "2021"
publish = false

[dependencies]
glob = "0.3"
regex-lite = "0.1"
thiserror = "1"
which = "*"
tempdir = "0.3"
defer = "*"
memoize = "*"
