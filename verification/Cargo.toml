[package]
name = "flatpak_bundler"
version = "0.1.0"
edition = "2021"
publish = false

[dependencies]
anyhow = "1"
dbus = "0.9"
glib = "0.15"
handlebars = "4"
log = "0.4"
serde = { version = "1", features = ["derive"] }
serde_json = "1"
