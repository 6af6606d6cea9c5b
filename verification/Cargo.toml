[package]
name = "noiser"
version = "0.1.0"
edition = "2021"
publish = false

[dependencies]
cortex-m = "0.7"
cortex-m-rt = "0.7"
embedded-hal = "1"
microbit-v2 = "*"
nanorand = { version = "0.7", default-features = false, features = ["pcg64"] }
panic-halt = "*"
