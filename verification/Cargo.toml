[package]
name = "stress_lb"
version = "0.1.0"
edition = "2021"
publish = false

[dependencies]
affinity = "*"
scheduler = "*"
signal-hook = "*"
libc = "*"
errno = "*"
clap = { version = "4", features = ["derive"] }
duration-str = "*"
volatile = "0.4"
