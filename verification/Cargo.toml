[package]
name = "gnome_randr"
version = "0.1.0"
edition = "2021"
publish = false

[dependencies]
bitflags = "=1.3.2"
dbus = { version = "=0.9.12", features = ["vendored"] }
structopt = "=0.3.26"
