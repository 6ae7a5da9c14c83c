[package]
name = "pixbuf_iconview"
version = "0.1.0"
edition = "2021"
publish = false

[dependencies]
gtk = "0.1"
gdk = "0.5"
gdk-pixbuf = "0.1"
glib = "0.1"
cairo-rs = "0.1"
