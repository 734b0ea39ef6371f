[package]
name = "menu_flow"
version = "0.1.0"
edition = "2021"
publish = false

[dependencies]
macroquad = "=0.3.26"
quad-gamepad = "=0.2.0-alpha"
stunclient = "=0.4.2"
