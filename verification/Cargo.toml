[package]
name = "lle_simulator"
version = "0.1.0"
edition = "2021"
publish = false

[dependencies]
anyhow = "1"
array-init = "2"
env_logger = { version = "0.11", default-features = false }
iced = { version = "0.13", default-features = false, features = ["tokio", "tiny-skia"] }
lle = "*"
log = "0.4"
minifb = { version = "*", default-features = false, features = ["x11"] }
plotters = { version = "0.3", default-features = false, features = ["bitmap_backend", "line_series"] }
plotters-bitmap = { version = "0.3", default-features = false }
rand = "0.8"
rustfft = "6"
tokio = { version = "1", features = ["time"] }
