[package]
name = "portapi"
version = "0.1.0"
edition = "2021"
publish = false

[dependencies]
serde = { version = "1", features = ["derive"] }
serde_json = "1"
tokio = { version = "1", features = ["macros", "rt-multi-thread", "sync", "time", "net"] }
tokio-websockets = { version = "*", features = ["client", "fastrand", "sha1_smol"] }
futures-util = { version = "0.3", default-features = false, features = ["sink", "std"] }
http = "1"
lazy_static = "1"
thiserror = "1"
uuid = { version = "1", features = ["v4"] }
dirs = "*"
rust-ini = "*"
cached = "*"
dataurl = "*"
gdk-pixbuf = "*"
gdk-pixbuf-sys = "*"
gio-sys = "*"
glib = "*"
glib-sys = "*"
gtk-sys = "*"
