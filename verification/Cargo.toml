[package]
name = "navdisplay"
version = "0.1.0"
edition = "2021"
publish = false

[dependencies]
ublox = "=0.4.5"
embedded-graphics = "=0.8.2"
profont = "=0.7.0"
