[package]
name = "speedtest"
version = "0.1.0"
edition = "2021"
publish = false

[dependencies]
async-trait = "0.1"
flate2 = "1"
gio = "0.18"
glib = "0.18"
gtk4 = "0.7"
libadwaita = { version = "0.5", features = ["v1_2"] }
reqwest = "0.11"
serde = { version = "1", features = ["derive"] }
serde_json = "1"
tar = "0.4"
tokio = { version = "1", features = ["full"] }
