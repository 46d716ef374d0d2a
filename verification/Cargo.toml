[package]
name = "frozen_game"
version = "0.1.0"
edition = "2021"
publish = false

[dependencies]
tobj = "*"
vulkano = "*"
