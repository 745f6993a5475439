[package]
name = "roughstamp"
version = "0.1.0"
edition = "2021"
publish = false

[dependencies]
byteorder = "=1.5.0"
chrono = "=0.4.45"
clap = { version = "=4.6.7", features = ["derive"] }
data-encoding = "=2.11.1"
ring = "=0.13.5"
roughenough = "=1.1.8"

[dev-dependencies]
cc = "=1.0.79"
