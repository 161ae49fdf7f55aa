[package]
name = "media_toc"
version = "0.1.0"
edition = "2021"
publish = false

[dependencies]
image = "0.24"
futures = "0.3"
log = "0.4"
gettext-rs = "0.7"
lazy_static = "1"
bitflags = "1"
chrono = "0.4"
glib = "0.15"
gio = "0.15"
gdk = "0.15"
gtk = "0.15"
cairo-rs = "0.15"
pango = "0.15"
gstreamer = "0.18"
