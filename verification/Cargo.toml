[package]
name = "doukutsu_rs"
version = "0.1.0"
edition = "2021"
publish = false

[dependencies]
bitvec = "=0.19.6"
chrono = "=0.4.45"
log = "=0.4.34"
num-traits = "=0.2.19"
webbrowser = "=1.2.5"
