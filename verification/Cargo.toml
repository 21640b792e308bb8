[package]
name = "cdls"
version = "0.1.0"
edition = "2021"
publish = false

[dependencies]
chrono = "=0.4.45"
encoding8 = "=0.3.2"
log = "=0.4.34"
ncurses = "=5.101.0"
simplelog = "=0.12.2"

[dev-dependencies]
rust-fuzzy-search = "=0.1.1"
