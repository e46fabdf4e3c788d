[package]
name = "bots_firmware"
version = "0.1.0"
edition = "2021"
publish = false

[dependencies]
embedded-hal = "=0.2.7"
nb = "=1.1.0"
bxcan = "=0.7.0"
stm32f1xx-hal = { version = "=0.10.0", features = ["stm32f103", "medium"] }
embedded-nrf24l01 = "=0.2.0"
cortex-m = "=0.7.10"
cortex-m-rt = "=0.7.7"
cortex-m-semihosting = "=0.5.0"
panic-semihosting = "=0.6.0"
usb-device = "=0.2.9"
usbd-serial = "=0.1.1"
smart-leds = "=0.3.0"
ws2812-spi = "=0.4.0"
socketcan = "=2.1.0"
clap = { version = "=4.6.7", features = ["derive"] }
anyhow = "=1.0.104"
linux-embedded-hal = "=0.3.2"
rppal = { version = "=0.17.1", features = ["hal"] }
display-interface = "=0.4.1"
display-interface-spi = "=0.4.1"
embedded-graphics = "=0.8.2"
embedded-graphics-framebuf = "=0.5.0"
gc9a01a = "=0.1.1"
tinybmp = "=0.5.0"
nalgebra = "=0.32.6"
ftdi-embedded-hal = "=0.24.0"
