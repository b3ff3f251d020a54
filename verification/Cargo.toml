[package]
name = "caesiumclt"
version = "0.1.0"
edition = "2021"
publish = false

[dependencies]
indicatif = "0.17"
libc = "=0.2.191"
libcaesium = "=0.21.2"
mime_guess = "=2.0.5"
num_cpus = "=1.17.0"
structopt = "=0.3.26"
threadpool = "=1.8.1"
walkdir = "=2.5.0"
