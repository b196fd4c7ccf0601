[package]
name = "perform_wasm"
version = "0.1.0"
edition = "2021"
publish = false

[dependencies]
tokio = { version = "=1.54.1", features = ["sync", "rt", "macros"] }
uuid = { version = "=1.29.0", features = ["v4", "js"] }
once_cell = "=1.21.4"
thiserror = "=1.0.69"
async-trait = "=0.1.92"
log = "=0.4.34"
reqwest = { version = "=0.11.27", default-features = false }
wasm-bindgen-futures = "=0.4.79"
console_error_panic_hook = "=0.1.7"
wasm-logger = "=0.2.0"
itertools = "=0.10.5"
eframe = { version = "=0.20.1", default-features = false, features = ["glow"] }
