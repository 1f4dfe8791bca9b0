[package]
name = "blaze_rs"
version = "0.1.0"
edition = "2021"
publish = false

[dependencies]
opencl-sys = { version = "=0.6.5", features = ["static", "CL_VERSION_1_1", "CL_VERSION_1_2", "CL_VERSION_2_0", "CL_VERSION_2_1", "CL_VERSION_2_2", "CL_VERSION_3_0"] }
once_cell = "=1.21.4"
elor = "=1.1.4"
parking_lot = "=0.12.5"
