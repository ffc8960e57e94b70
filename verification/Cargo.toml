[package]
name = "ur_controller"
version = "0.1.0"
edition = "2021"
publish = false

[dependencies]
futures = "=0.3.34"
r2r = "0.7.5"
tera = "=1.20.1"
tokio = { version = "=1.54.1", features = ["macros", "rt-multi-thread"] }
