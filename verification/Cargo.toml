[package]
name = "discorsd_games"
version = "0.1.0"
edition = "2021"
publish = false

[dependencies]
base64 = "=0.13.1"
rand = "=0.8.8"
chrono = "=0.4.45"
tiny-skia = "=0.6.6"
image = "=0.24.9"
rayon = "=1.12.0"
sysinfo = "0.29"

[dev-dependencies]
serde_json = "=1.0.154"
