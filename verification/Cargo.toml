[package]
name = "linux_spi"
version = "0.1.0"
edition = "2021"
publish = false

[dependencies]
embedded-hal = "=1.0.0-rc.1"
spidev = "0.5.2"
