[package]
name = "picovoice"
version = "0.1.0"
edition = "2021"
publish = false

[dependencies]
hound = "=3.5.1"
clap = "=3.2.25"
ctrlc = "=3.5.2"
chrono = "=0.4.45"
