[package]
name = "edp"
version = "0.1.0"
edition = "2021"
publish = false

[dependencies]
erltf = "*"
md-5 = "*"
bytes = "*"
bitflags = "*"
serde = { version = "*", features = ["derive"] }
thiserror = "*"
tokio = { version = "*", features = ["full"] }
tracing = "*"
