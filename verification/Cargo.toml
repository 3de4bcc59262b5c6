[package]
name = "opencl3_select"
version = "0.1.0"
edition = "2021"
publish = false

[dependencies]
crossterm = "=0.27.0"
opencl3 = { version = "0.12", default-features = false, features = ["dynamic", "CL_VERSION_1_1", "CL_VERSION_1_2", "CL_VERSION_2_0"] }
ratatui = "=0.26.3"
serde = { version = "=1.0.229", features = ["derive"] }
thiserror = "=1.0.69"
