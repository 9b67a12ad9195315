[package]
name = "toykit_dongle"
version = "0.1.0"
edition = "2021"
publish = false

[dependencies]
rmk = { version = "=0.9.0", default-features = false, features = ["display", "split", "_ble", "dongle"] }
rmk-types = { version = "=0.4.0", features = ["display", "split", "_ble"] }
embedded-graphics = "=0.8.2"
static_cell = "=2.1.1"
defmt = "=1.2.0"
defmt-rtt = "=1.3.1"
panic-probe = "=1.0.0"
embassy-executor = "=0.10.0"
embassy-nrf = { version = "=0.11.0", features = ["nrf52840"] }
nrf-mpsl = "=0.4.0"
nrf-sdc = "=0.4.0"
