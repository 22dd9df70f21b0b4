[package]
name = "psst_gui"
version = "0.1.0"
edition = "2021"
publish = false

[dependencies]
crossbeam-channel = "=0.5.17"
druid = { version = "=0.8.3", default-features = false, features = ["im", "raw-win-handle"] }
im = "=15.1.0"
log = "=0.4.35"
raw-window-handle = "=0.5.2"
souvlaki = { version = "=0.8.3", default-features = false, features = ["use_zbus"] }
