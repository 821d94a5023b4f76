[package]
name = "shape_interop"
version = "0.1.0"
edition = "2021"
publish = false

[dependencies]
clap = { version = "3", features = ["derive"] }
ctrlc = "3"
log = "0.4"
log4rs = "1"
mio = "0.6"
mio-extras = "2"
rand = "0.8"
rustdds = "*"
serde = { version = "1", features = ["derive"] }
