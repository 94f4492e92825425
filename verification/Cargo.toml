[package]
name = "lcd_session"
version = "0.1.0"
edition = "2021"
publish = false

[dependencies]
itoa = "1"
ryu = "1"
defmt = "*"
embedded-hal = "1"
embassy-time = "*"
embassy-rp = { version = "*", features = ["rp2040"] }
hd44780-driver = "*"
