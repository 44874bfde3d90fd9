[package]
name = "mio_runtime"
version = "0.1.0"
edition = "2021"
publish = false

[dependencies]
futures = "*"
mio = { version = "*", features = ["os-poll", "os-ext"] }
nix = { version = "=0.27.1", features = ["fs"] }
pin-utils = "*"
scoped-tls = "*"
socket2 = "*"
tokio = { version = "*", features = ["io-util"] }
waker-fn = "*"
