[package]
name = "esp_visualize"
version = "0.1.0"
edition = "2021"
publish = false

[dependencies]
embassy-executor = "*"
embassy-net = "*"
embassy-time = "*"
embedded-graphics = "*"
esp-alloc = "*"
esp-bootloader-esp-idf = "*"
esp-hal = "*"
esp-hub75 = "*"
esp-println = "*"
esp-radio = "*"
esp-rtos = "*"
reqwless = "*"
static_cell = "*"
