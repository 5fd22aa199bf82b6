[package]
name = "edifier"
version = "0.1.0"
edition = "2021"
publish = false

[dependencies]
argh = "=0.1.19"
windows = { version = "=0.58.0", features = ["Win32_Devices_Bluetooth", "Win32_Foundation", "Win32_Networking_WinSock"] }
windows-core = "=0.58.0"
