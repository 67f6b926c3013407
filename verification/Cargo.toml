[package]
name = "nusb"
version = "0.1.0"
edition = "2021"
publish = false

[dependencies]
io-kit-sys = "0.4"
wasm-bindgen-futures = "0.4"
web-sys = { version = "0.3", features = ["Window", "Navigator", "Usb", "UsbDevice", "UsbConfiguration", "UsbInterface", "UsbAlternateInterface", "UsbControlTransferParameters", "UsbInTransferResult", "UsbOutTransferResult", "UsbTransferStatus", "UsbRecipient", "UsbRequestType", "WorkerGlobalScope", "WorkerNavigator"] }
