[package]
name = "snackbot"
version = "0.1.0"
edition = "2021"
publish = false

[dependencies]
async-channel = "=2.5.0"
embassy-executor = "=0.7.0"
embassy-rp = { version = "=0.4.0", features = ["rp2040"] }
embassy-sync = "=0.6.2"
embassy-time = "=0.4.0"
embassy-usb = "=0.4.0"
fixedstr = "=0.5.11"
lcd-lcm1602-i2c = "=0.3.0"
libm = "=0.2.16"
postcard-rpc = { version = "=0.11.15", features = ["embassy-usb-0_4-server", "raw-nusb", "use-std"] }
postcard-schema = { version = "=0.2.5", features = ["derive"] }
serde = { version = "=1.0.229", features = ["derive"] }
static_cell = "=2.1.1"
tokio = { version = "=1.54.1", features = ["rt-multi-thread", "time", "macros"] }
usbd-hid = "=0.8.2"
