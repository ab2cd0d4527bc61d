[package]
name = "nightfire"
version = "0.1.0"
edition = "2021"
publish = false

[dependencies]
yaml-rust = "=0.4.5"
log = "=0.4.35"
env_logger = "=0.11.11"
palette = "=0.5.0"
splines = "=5.0.0"
stoppable_thread = "=0.2.1"
hidapi = "=1.5.0"
gpio-cdev = "=0.4.0"
clap = "=2.34.0"
prost = "=0.6.1"
