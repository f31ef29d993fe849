[package]
name = "infinite_escape_velocity"
version = "0.1.0"
edition = "2021"
publish = false

[dependencies]
crossbeam-channel = "0.5"
euclid = "0.22"
fxhash = "0.2"
macroquad = "*"
