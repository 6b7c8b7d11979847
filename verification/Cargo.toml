[package]
name = "libtlp"
version = "0.1.0"
edition = "2021"
publish = false

[dependencies]
bytes = "=1.12.1"
thiserror = "=1.0.69"
zerocopy = "=0.7.35"

[dev-dependencies]
regex = "=1.13.1"
