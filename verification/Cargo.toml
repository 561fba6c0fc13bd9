[package]
name = "pamusb"
version = "0.1.0"
edition = "2021"
publish = false

[dependencies]
subtle = "2"
zeroize = "1"
fastrand = "2"
log = "0.4"
libc = "0.2"
udev = "0.9"
toml = "0.5"
serde = { version = "1", features = ["derive"] }
clap = { version = "4", features = ["derive"] }
thiserror = "1"
bitflags = "2"
