[package]
name = "sherlock"
version = "0.1.0"
edition = "2021"
publish = false

[dependencies]
meval = "0.2"
futures = "0.3"
gtk4 = "0.9"
gio = "0.20"
glib = "0.20"
gdk-pixbuf = "0.20"
once_cell = "1"
