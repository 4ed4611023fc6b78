[package]
name = "firmware"
version = "0.1.0"
edition = "2021"
publish = false

[dependencies]
embassy-executor = "=0.10.0"
embassy-sync = "=0.8.0"
embassy-time = "=0.5.1"
embedded-graphics = "=0.8.2"
embedded-hal = "=0.2.7"
embedded-hal-bus = "=0.3.0"
esp-alloc = "=0.11.0"
esp-backtrace = "=0.20.0"
esp-hal = { version = "=1.2.2", features = ["esp32c3", "unstable"] }
esp-println = "=0.18.0"
esp-rtos = "=0.4.0"
loadcell = "=0.3.0"
log = "=0.4.35"
mipidsi = "=0.10.0"
nb = "=1.1.0"
smart-leds-trait = "=0.2.1"
tinyqoi = "=0.2.0"
void = "=1.0.2"
ws2812-timer-delay = "=0.3.0"
