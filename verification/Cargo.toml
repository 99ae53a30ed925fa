[package]
name = "panel_core"
version = "0.1.0"
edition = "2021"
publish = false

[dependencies]
cairo-rs = "*"
chrono = "*"
dbus = "*"
futures = "=0.3.34"
gdk = "*"
gio = "*"
glib = "*"
gtk = "*"
libpulse-binding = "*"
