[package]
name = "wav_player"
version = "0.1.0"
edition = "2021"
publish = false

[dependencies]
cortex-m = "=0.7.10"
cortex-m-rt = "=0.7.7"
critical-section = "=1.2.0"
defmt = "=1.2.0"
defmt-rtt = "=1.3.1"
embedded-alloc = "=0.7.0"
embedded-graphics = "=0.8.2"
embedded-hal = "=1.0.0"
embedded-hal-bus = "=0.3.0"
embedded-sdmmc = "=0.10.0"
fugit = "=0.3.9"
panic-probe = { version = "=1.0.0", features = ["print-defmt"] }
rp2040-boot2 = "=0.3.0"
rp2040-hal = { version = "=0.12.0", features = ["rt", "critical-section-impl"] }
ssd1306 = "=0.10.0"
