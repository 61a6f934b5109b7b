[package]
name = "xen"
version = "0.1.0"
edition = "2021"
publish = false

[dependencies]
libc = "0.2"
log = "0.4"
thiserror = "2"
tokio = { version = "1", features = ["rt"] }
uuid = "1"
