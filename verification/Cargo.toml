[package]
name = "flatline"
version = "0.1.0"
edition = "2021"
publish = false

[dependencies]
anyhow = "1"
async-trait = "0.1"
gio = "*"
glib = "*"
gtk4 = "*"
libadwaita = { version = "*", features = ["v1_4"] }
libc = "0.2"
russh = "0.40"
russh-keys = "0.40"
thiserror = "1"
tokio = { version = "1", features = ["rt", "net", "sync", "macros", "io-util"] }
tracing = "0.1"
tracing-subscriber = "0.3"
vte4 = "*"
