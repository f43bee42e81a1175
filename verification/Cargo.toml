[package]
name = "devbridge"
version = "0.1.0"
edition = "2021"
publish = false

[dependencies]
adb_client = { version = "=3.2.3", features = ["usb"] }
rusb = "=0.9.4"
serialport = { version = "=4.10.1", default-features = false }
ihex = "=3.0.0"
md5 = "=0.8.1"
rand = "=0.8.8"
scopeguard = "=1.2.0"
serde = { version = "=1.0.229", features = ["derive"] }
serde_json = "=1.0.151"
thiserror = "=2.0.21"
zip = "=8.6.0"
