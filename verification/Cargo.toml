[package]
name = "i2c_bringup"
version = "0.1.0"
edition = "2021"
publish = false

[dependencies]
stm32f4 = { version = "*", features = ["stm32f446"] }
