[package]
name = "wgsl_compiler"
version = "0.1.0"
edition = "2021"
publish = false

[dependencies]
wgpu = "22"
log = "0.4"
hashbrown = "0.14"
