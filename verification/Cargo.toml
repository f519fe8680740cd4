[package]
name = "gpio_host"
version = "0.1.0"
edition = "2021"
publish = false

[dependencies]
anyhow = "=1.0.104"
async-trait = "=0.1.92"
clap = { version = "=4.6.7", features = ["derive"] }
futures = "=0.3.34"
linux-embedded-hal = { version = "=0.3.2", default-features = false, features = ["gpio_cdev"] }
tracing = "=0.1.44"
tracing-subscriber = "=0.3.23"
wasmtime = { version = "=13.0.1", default-features = false, features = ["async", "cranelift", "component-model", "pooling-allocator"] }
wasmtime-wasi = "=13.0.1"
