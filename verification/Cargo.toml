[package]
name = "gpu_dispatch"
version = "0.1.0"
edition = "2021"
publish = false

[dependencies]
ocl = "0.19"
ocl-interop = "*"
parking_lot = "0.12"
lazy_static = "1"
bytemuck = "1"
log = "0.4"
