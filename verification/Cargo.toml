[package]
name = "synthi_sam_core"
version = "0.1.0"
edition = "2021"
publish = false

[dependencies]
cpal = "*"
lockfree = "*"
midir = "*"
