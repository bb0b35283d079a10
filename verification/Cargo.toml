[package]
name = "lora-phy"
version = "0.1.0"
edition = "2021"
publish = false

[dependencies]
defmt = "0.3"
embedded-hal-async = "1.0"
