[package]
name = "motor_controller"
version = "0.1.0"
edition = "2021"
publish = false

[dependencies]
bxcan = "0.5"
heapless = "0.6"
embedded-hal = "0.2"
nb = "1"
defmt = "0.2"
defmt-rtt = "0.2"
cortex-m = "0.6"
cortex-m-rtic = "0.5"
stm32f1xx-hal = { version = "0.7", features = ["stm32f103", "rt", "medium"] }
