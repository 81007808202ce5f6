[package]
name = "option_bytes"
version = "0.1.0"
edition = "2021"
publish = false

[dependencies]
cortex-m = "0.7"
cortex-m-rt = "0.7"
panic-halt = "0.2"
stm32l0xx-hal = { version = "0.10", features = ["mcu-STM32L071KBTx", "rt"] }
volatile-register = "0.2"
