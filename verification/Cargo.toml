[package]
name = "embassy_stm32_pwm"
version = "0.1.0"
edition = "2021"
publish = false

[dependencies]
stm32-metapac = { version = "*", features = ["stm32f334r8"] }
