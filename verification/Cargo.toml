[package]
name = "fs25-ffb"
version = "0.1.0"
edition = "2021"
publish = false

[dependencies]
anyhow = "1"
byteorder = "1"
directories = "5"
eframe = { version = "0.27", default-features = false, features = ["glow"] }
egui = { version = "0.27", default-features = false }
egui_plot = "0.27"
evdev = "0.12"
input-linux = "*"
input-linux-sys = "*"
libc = "0.2"
nix = { version = "0.29", features = ["signal"] }
once_cell = "1"
parking_lot = "0.12"
serde = { version = "1", features = ["derive"] }
toml = { version = "0.8" }
tracing = "0.1"
tracing-subscriber = { version = "0.3", default-features = false, features = ["std", "fmt", "env-filter"] }
