[package]
name = "timg"
version = "0.1.0"
edition = "2021"
publish = false

[dependencies]
clap = "2"
image = "0.24"
raw_tty = "0.1"
term_lattice = "*"
term_size = "0.3"
