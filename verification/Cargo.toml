[package]
name = "rshell"
version = "0.1.0"
edition = "2021"
publish = false

[dependencies]
niri-ipc = "*"
serde_json = "*"
async-std = "*"
thiserror = "*"
gtk4 = "*"
libadwaita = "*"
gio = "*"
gtk4-layer-shell = "*"
astal-apps = "*"
