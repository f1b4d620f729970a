[package]
name = "reverb_csd"
version = "0.1.0"
edition = "2021"
publish = false

[dependencies]
bincode-next = "=3.1.1"
clack-plugin = "=0.2.0"
clack-extensions = { version = "=0.2.0", features = ["clack-plugin", "audio-ports", "params", "state", "gui", "raw-window-handle_06"] }
libloading = "=0.9.0"
once_cell = "=1.21.4"
egui-baseview = "=0.8.1"
egui = "=0.36.2"
baseview = "=0.4.2"
egui_knob = "=0.6.3"
