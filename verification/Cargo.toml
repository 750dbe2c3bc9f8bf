[package]
name = "watchlist"
version = "0.1.0"
edition = "2021"
publish = false

[dependencies]
anyhow = "=1.0.104"
chrono = "=0.4.45"
regex = "=1.13.1"
sqlite = "=0.37.4"
downloader = "=0.2.8"
webpage = "=2.1.0"
image = { version = "=0.25.10", default-features = false, features = ["png", "jpeg"] }
open = "=5.4.5"
rfd = { version = "=0.17.2", default-features = false, features = ["xdg-portal"] }
slint = { version = "=1.18.1", default-features = false, features = ["std", "compat-1-2"] }
