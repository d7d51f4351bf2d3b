[package]
name = "simplebluetooth"
version = "0.1.0"
edition = "2021"
publish = false

[dependencies]
anyhow = "=1.0.104"
eframe = { version = "=0.29.1", default-features = false, features = ["glow", "default_fonts"] }
egui = { version = "=0.29.1", default-features = false, features = ["default_fonts"] }
pollster = "=0.4.0"
raw-window-handle = "=0.6.2"
serde = { version = "=1.0.229", features = ["derive"] }
toml = "=0.8.23"
windows = { version = "=0.62.2", features = ["Devices_Bluetooth", "Devices_Bluetooth_Advertisement", "Devices_Enumeration", "Devices_Radios", "Foundation", "Foundation_Collections", "Storage_Streams", "Win32_Devices_Bluetooth", "Win32_Foundation", "Win32_Graphics_Dwm", "Win32_System_Registry"] }
windows-collections = "=0.3.2"
windows-core = "=0.62.2"
# Not called: without a window system of its own, eframe does not build outside Windows.
winit = { version = "=0.30.13", default-features = false, features = ["x11"] }
