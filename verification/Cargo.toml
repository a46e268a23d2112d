[package]
name = "unwind_context"
version = "0.2.2"
edition = "2021"
publish = false

[dependencies]
atomic_ref = "*"
supports-color = "*"
