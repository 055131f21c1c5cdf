[package]
name = "cow_arg"
version = "0.1.0"
edition = "2021"
publish = false

[dependencies]
godot = "=0.4.5"
godot-ffi = "=0.4.5"
