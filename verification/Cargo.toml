[package]
name = "keypoint-central"
version = "0.1.0"
edition = "2021"
publish = false

[dependencies]
defmt = "=1.2.0"
defmt-rtt = "=1.3.1"
embassy-executor = "=0.10.0"
embassy-nrf = { version = "=0.11.0", features = ["nrf52840", "time-driver-rtc1", "gpiote", "unstable-pac"] }
embassy-time = { version = "=0.5.1", features = ["tick-hz-32_768"] }
heapless = "=0.9.3"
nrf-mpsl = { version = "=0.4.0", features = ["nrf52840", "critical-section-impl"] }
nrf-sdc = { version = "=0.4.0", features = ["nrf52840", "peripheral", "central"] }
panic-probe = "=1.0.0"
rmk = { version = "=0.9.0", features = ["split", "display", "_ble"] }
static_cell = "=2.1.1"
