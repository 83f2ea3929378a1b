[package]
name = "spot"
version = "0.1.0"
edition = "2021"
publish = false

[dependencies]
gtk4 = "0.9"
libadwaita = { version = "0.7", features = ["v1_5"] }
glib = "0.20"
gio = "0.20"
gdk4 = "0.9"
gdk-pixbuf = "0.20"
futures = "0.3"
gettext-rs = "0.7"
env_logger = "0.11"
lazy_static = "1"
log = "0.4"
