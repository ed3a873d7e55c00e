[package]
name = "mizpos_desktop"
version = "0.1.0"
edition = "2021"
publish = false

[dependencies]
encoding_rs = "=0.8.42"
base64 = "=0.22.1"
ed25519-dalek = { version = "=2.2.0", features = ["rand_core"] }
rand = "=0.8.8"
uuid = { version = "=1.29.0", features = ["v4"] }
serde = { version = "=1.0.229", features = ["derive"] }
serde_json = "=1.0.154"
keyring = "=3.6.3"
dirs = "=7.0.0"
nusb = "=0.2.9"
escpos = { version = "=0.20.1", default-features = false, features = ["std", "native_usb"] }
tauri = { version = "2", default-features = false }
