[package]
name = "imxrt-usbh"
version = "0.1.0"
edition = "2021"
publish = false

[dependencies]
cotton-usb-host = "0.2"
cortex-m = "0.7"
futures-core = { version = "0.3", default-features = false }
imxrt-ral = { version = "0.6", features = ["imxrt1062"] }
log = "0.4"
rtic-common = "1"

[dev-dependencies]
critical-section = { version = "1", features = ["std"] }
