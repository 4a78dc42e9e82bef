[package]
name = "test_os"
version = "0.1.0"
edition = "2021"
publish = false

[dependencies]
lazy_static = { version = "1", features = ["spin_no_std"] }
spin = "0.9"
uart_16550 = "0.3"
volatile = "0.2"
x86_64 = { version = "0.15", default-features = false, features = ["instructions"] }

[dev-dependencies]
array-init = "2"
