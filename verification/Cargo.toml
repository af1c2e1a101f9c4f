[package]
name = "slean"
version = "0.1.0"
edition = "2021"
publish = false

[dependencies]
bincode = "1"
byteorder = "1"
rmp-serde = "1"
serde = { version = "1", features = ["derive"] }
log = "0.4"
mio = { version = "0.8", features = ["os-poll", "net"] }
slab = "0.4"
socket2 = { version = "0.5", features = ["all"] }
thiserror = "1"
