[package]
name = "river-layout-toolkit"
version = "0.1.0"
edition = "2021"
publish = false

[dependencies]
log = "0.4"
thiserror = "1"
wayrs-client = "1"
