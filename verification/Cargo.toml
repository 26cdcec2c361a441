[package]
name = "c6"
version = "0.1.0"
edition = "2021"
publish = false

[dependencies]
defmt = "=1.2.0"
embassy-executor = "=0.10.0"
embassy-futures = "=0.1.2"
embassy-sync = "=0.8.0"
embassy-time = "=0.5.1"
embedded-graphics = "=0.8.2"
embedded-hal-bus = "=0.3.0"
esp-alloc = "=0.10.0"
esp-bootloader-esp-idf = { version = "=0.5.0", features = ["esp32c6"] }
esp-hal = { version = "=1.1.2", features = ["esp32c6", "unstable"] }
esp-radio = { version = "=0.18.0", features = ["esp32c6", "esp-now", "wifi", "unstable"] }
esp-rtos = { version = "=0.3.0", features = ["esp32c6", "embassy", "esp-radio"] }
mipidsi = "=0.10.0"
panic-rtt-target = "=0.2.0"
rtt-target = { version = "=0.6.2", features = ["defmt"] }
static_cell = "=2.1.1"
