[package]
name = "uplc"
version = "0.1.0"
edition = "2021"

[dependencies]
strum = "=0.24.1"
strum_macros = "=0.24.3"

[dev-dependencies]
heck = "=0.4.1"
