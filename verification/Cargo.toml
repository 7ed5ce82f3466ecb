[package]
name = "tgoskits"
version = "0.1.0"
edition = "2021"
publish = false

[dependencies]
chrono = { version = "=0.4.45", default-features = false }
bitmaps = { version = "=3.2.1", default-features = false }
ringbuf = { version = "=0.4.8", default-features = false, features = ["alloc"] }
ax-hal = "*"
ax-task = "*"
ax-kspin = "*"
lazy_static = "1"
log = "0.4"
