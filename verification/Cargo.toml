[package]
name = "flatpak_installer"
version = "0.1.0"
edition = "2021"
publish = false

[dependencies]
serde_json = "=1.0.154"
gtk4 = { version = "=0.10.3", features = ["blueprint"] }
libadwaita = { version = "=0.8.1", features = ["v1_2"] }
libflatpak = "=0.7.0"
reqwest = { version = "=0.13.5", features = ["blocking"] }
