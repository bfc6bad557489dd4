[package]
name = "dynlock"
version = "0.1.0"
edition = "2021"
publish = false

[dependencies]
anyhow = "1"
bytemuck = { version = "=1.25.2", features = ["derive"] }
chrono = { version = "=0.4.45", default-features = false, features = ["clock"] }
clap = { version = "=4.6.7", default-features = false, features = ["derive", "std", "help", "usage", "error-context"] }
daemonize = "0.5"
env_logger = { version = "0.11", default-features = false }
iced_runtime = "=0.12.1"
iced_wgpu = { version = "=0.12.1", features = ["image"] }
iced_widget = { version = "=0.12.3", features = ["image"] }
image = { version = "=0.24.9", default-features = false, features = ["png", "jpeg"] }
libwayshot = "=0.3.0"
log = "0.4"
pam = "=0.8.0"
pollster = "0.3"
rand = "=0.8.8"
raw-window-handle = "=0.6.2"
serde = { version = "1", features = ["derive"] }
serde_yaml = "0.9"
shellexpand = "3"
smithay-client-toolkit = "=0.19.2"
smol_str = "=0.2.2"
wayland-client = "=0.31.15"
wgpu = { version = "=0.19.4", features = ["spirv"] }
whoami = "=1.6.1"
xdg = "=2.5.2"
xkeysym = "=0.2.1"
