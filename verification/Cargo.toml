[package]
name = "game_core"
version = "0.1.0"
edition = "2021"
publish = false

[dependencies]
agb = "=0.25.0"
agb_fixnum = "=0.25.0"
agb_tracker = "=0.25.0"
