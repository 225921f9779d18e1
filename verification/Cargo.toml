[package]
name = "device_monitor"
version = "0.1.0"
edition = "2021"
publish = false

[dependencies]
anyhow = "=1.0.104"
bluer = { version = "=0.17.4", features = ["bluetoothd"] }
dbus = { version = "=0.9.12", features = ["vendored"] }
futures = "=0.3.34"
itertools = "=0.15.0"
prettytable-rs = "=0.10.0"
single = "=1.0.1"
terminal-emoji = "=0.4.1"
tokio = { version = "=1.54.1", features = ["macros", "rt", "sync"] }
uuid = "=1.29.0"
