[package]
name = "d3d9to11"
version = "0.1.0"
edition = "2021"
publish = false

[dependencies]
log = "0.4"
winapi = { version = "0.3", features = ["dxgi", "dxgitype", "d3d11", "d3dcommon", "winuser", "windef", "winerror", "unknwnbase"] }
