[package]
name = "pwsb"
version = "0.1.0"
edition = "2021"
publish = false

[dependencies]
anyhow = "1"
argh = "0.1"
pipewire = "0.8"
symphonia = "0.5"
