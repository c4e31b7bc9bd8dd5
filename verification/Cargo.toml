[package]
name = "explorers_and_settlers"
version = "0.1.0"
edition = "2021"
publish = false

[dependencies]
nannou = "0.18"
nannou_core = "0.18"
