[package]
name = "stm32mp1_openamp"
version = "0.1.0"
edition = "2021"
publish = false

[dependencies]
cortex-m = "=0.7.10"
cortex-m-rt = "=0.6.15"
panic-halt = "=0.2.0"
stm32mp1 = { version = "=0.15.1", features = ["stm32mp157"] }
volatile-register = "=0.2.2"
