[package]
name = "goldfish"
version = "0.1.0"
edition = "2021"
publish = false

[dependencies]
ash = "0.37"
ash-window = "0.11"
gpu-allocator = { version = "0.21", default-features = false, features = ["vulkan"] }
raw-window-handle = "0.4"
