[package]
name = "ecu-core"
version = "0.1.0"
edition = "2021"
publish = false

[dependencies]
eframe = { version = "*", default-features = false, features = ["default_fonts", "glow", "x11"] }
egui = "*"
stm32f7xx-hal = { version = "*", features = ["stm32f767"] }
cortex-m = "*"
cortex-m-rt = "*"
rtt-target = "*"
panic-halt = "*"
