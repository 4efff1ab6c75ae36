[package]
name = "mitchrs"
version = "0.1.0"
edition = "2021"
publish = false

[dependencies]
btleplug = "=0.11.8"
color-eyre = "=0.6.5"
crossterm = { version = "=0.28.1", features = ["event-stream"] }
dbus = { version = "=0.9.12", features = ["vendored"] }
futures = "=0.3.34"
ratatui = { version = "=0.29.0", features = ["unstable-widget-ref"] }
tokio = { version = "=1.54.1", features = ["full"] }
uuid = "=1.29.0"
