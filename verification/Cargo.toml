[package]
name = "sundial"
version = "0.1.0"
edition = "2021"
publish = false

[dependencies]
embedded-graphics = "0.8"
format_no_std = "1"
fugit = "0.3"
embedded-hal = "1"
cortex-m = "0.7"
rp2040-hal = { version = "*", features = ["rt", "critical-section-impl"] }
rp2040-boot2 = "*"
rp235x-hal = { version = "*", features = ["rt", "critical-section-impl"] }
defmt = "*"
defmt-rtt = "*"
panic-probe = "*"
panic-halt = "*"
embedded-graphics-simulator = "*"
