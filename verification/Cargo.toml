[package]
name = "hive"
version = "0.1.0"
edition = "2021"
publish = false

[dependencies]
diesel = { version = "*", default-features = false }
fnv = "*"
thiserror = "*"
