[package]
name = "keyboard_impl"
version = "0.1.0"
edition = "2021"
publish = false

[dependencies]
anyhow = "=1.0.104"
bitflags = "=1.3.2"
lazy_static = "=1.5.1"
log = "=0.4.34"
protobuf = "=3.7.2"
rdev = "=0.5.3"
serde = { version = "=1.0.229", features = ["derive"] }
tfc = { version = "=0.6.2", features = ["ascii-fallback"] }
winapi = { version = "=0.3.9", features = ["winuser", "processthreadsapi"] }
xcb = { version = "=1.7.1", features = ["as-raw-xcb-connection", "xkb", "xlib_xcb"] }
xkbcommon = { version = "=0.5.1", features = ["x11"] }
