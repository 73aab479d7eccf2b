[package]
name = "taskset"
version = "0.1.0"
edition = "2021"
publish = false

[dependencies]
fugit = "0.3"
rtic-sync = "1"
libm = "0.2"
cortex-m = "0.7"
cortex-m-semihosting = "0.5"
panic-semihosting = "0.6"
rtic = { version = "2", features = ["thumbv7-backend"] }
rtic-monotonics = { version = "2", features = ["cortex-m-systick"] }
lm3s6965 = "*"

[dev-dependencies]
critical-section = { version = "1", features = ["std"] }
