[package]
name = "xmas_rattler"
version = "0.1.0"
edition = "2021"
publish = false

[dependencies]
embedded-hal = "1"
smart-leds = "*"
heapless = "*"
critical-section = "1"
esp-hal = "*"
esp-hal-smartled = "*"
esp-println = "*"
esp-backtrace = "*"
