[package]
name = "gpu_culling"
version = "0.1.0"
edition = "2021"
publish = false

[dependencies]
bytemuck = { version = "=1.25.2", features = ["extern_crate_alloc"] }
glam = { version = "=0.20.5", features = ["bytemuck"] }
ordered-float = "=2.10.1"
profiling = { version = "=1.0.18", default-features = false }
wgpu = { version = "=0.11.1", features = ["spirv"] }
