[package]
name = "irp_render"
version = "0.1.0"
edition = "2021"
publish = false

[dependencies]
iocuddle = "*"
quick-xml = { version = "*", features = ["serialize"] }
serde = { version = "*", features = ["derive"] }
