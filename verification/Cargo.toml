[package]
name = "dkms-wasm"
version = "0.1.1"
edition = "2021"
publish = false

[dependencies]
acdc = "=0.2.0"
cesrox = "=0.1.8"
ed25519-dalek = { version = "=2.2.0", features = ["rand_core"] }
gloo-net = { version = "=0.6.0", features = ["http"] }
gloo-timers = { version = "=0.3.0", features = ["futures"] }
js-sys = "0.3"
keri-core = { version = "=0.17.13", features = ["query", "oobi"] }
keri-sdk = "=0.1.9"
log = "=0.4.35"
rand = "=0.8.8"
said = "=0.4.3"
serde_cbor = "=0.11.2"
serde_json = "=1.0.154"
serde-wasm-bindgen = "=0.6.5"
teliox = "=0.17.13"
thiserror = "=2.0.21"
url = "=2.5.8"
wasm-bindgen = "0.2"
wasm-bindgen-console-logger = "=0.1.1"
