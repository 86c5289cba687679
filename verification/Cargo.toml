[package]
name = "windows_readout"
version = "0.1.0"
edition = "2021"
publish = false

[dependencies]
home = "=0.5.12"
local-ip-address = "=0.6.13"
sqlite = "=0.37.4"
windows = { version = "=0.48.0", features = ["Win32_Foundation", "Win32_System_Power", "Win32_System_SystemInformation", "Win32_System_WindowsProgramming"] }
winreg = "=0.56.0"
wmi = "=0.18.4"
