[package]
name = "surfman"
version = "0.1.0"
edition = "2021"
publish = false

[dependencies]
euclid = "*"
gleam = "*"
libloading = "*"
winapi = { version = "*", features = ["d3d11", "d3dcommon", "dxgi", "winerror"] }
wio = "*"
