[package]
name = "glycin"
version = "0.1.0"
edition = "2021"
publish = false

[dependencies]
gdk4 = "0.10"
gio = "0.21"
glib = "0.21"
gufo-common = "1"
gufo-exif = "0.3"
image = { version = "=0.25.10", default-features = false }
jpegxl-rs = "*"
jpegxl-sys = "*"
lcms2 = "=6.2.0"
lcms2-sys = "=4.0.7"
libc = "0.2"
libopenraw = "0.4.0-alpha.1"
libseccomp = "=0.4.0"
memfd = "=0.6.6"
nix = { version = "=0.29.0", features = ["fs", "process", "resource", "signal"] }
static_assertions = "1"
tracing = "0.1"
zbus = "=5.19.0"
