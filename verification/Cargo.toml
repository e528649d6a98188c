[package]
name = "magene_proxy"
version = "0.1.0"
edition = "2021"
publish = false

[dependencies]
bt-hci = "=0.3.2"
critical-section = { version = "=1.2.0", features = ["std"] }
embassy-executor = { version = "=0.7.0", features = ["arch-std", "executor-thread"] }
embassy-futures = "=0.1.2"
embassy-sync = "=0.7.2"
embassy-time = { version = "=0.4.0", features = ["std"] }
embedded-io = "=0.6.1"
log = "=0.4.34"
smart-leds = "=0.4.0"
static_cell = "=2.1.1"
thiserror = { version = "=2.0.21", default-features = false }
trouble-host = { version = "=0.2.4", features = ["gatt", "central", "peripheral", "scan", "derive"] }
