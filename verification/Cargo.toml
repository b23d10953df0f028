[package]
name = "pancakes"
version = "0.1.0"
edition = "2021"
publish = false

[dependencies]
gimli = "=0.34.0"
findshlibs = "=0.10.2"
cfg-if = "=1.0.5"
libc = "=0.2.191"
