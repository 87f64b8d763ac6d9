[package]
name = "lsystem_trees"
version = "0.1.0"
edition = "2021"
publish = false

[dependencies]
rand = "=0.8.8"
cgmath = "=0.18.0"
