[package]
name = "pyproc"
version = "0.1.0"
edition = "2021"
publish = false

[dependencies]
fork = "=0.1.23"
libc = "=0.2.191"
