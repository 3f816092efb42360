[package]
name = "razer_control"
version = "2.14.0"
edition = "2021"
publish = false

[dependencies]
bincode = "1.3"
clap = { version = "4", features = ["derive"] }
dbus = { version = "0.9", features = ["vendored"] }
env_logger = "0.11"
hidapi = { version = "2", default-features = false, features = ["linux-native-basic-udev"] }
ksni = { version = "0.3", features = ["blocking"] }
libc = "0.2"
log = "0.4"
serde = { version = "1", features = ["derive"] }
serde_json = "1"
signal-hook = "0.3"
