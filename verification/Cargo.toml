[package]
name = "adlisac"
version = "0.1.0"
edition = "2021"
publish = false

[dependencies]
wayland-server = "0.31"
smithay = { version = "0.4", default-features = false, features = ["desktop", "wayland_frontend"] }
thiserror = "1"
miette = "7"
tracing = "0.1"
clap = { version = "4", features = ["derive"] }
which = "6"
glib = "0.19"
gtk4 = "0.8"
gdk4 = "0.8"
gtk4-layer-shell = "0.3"
