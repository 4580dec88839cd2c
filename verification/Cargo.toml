[package]
name = "runwind"
version = "0.1.0"
edition = "2021"
publish = false

[dependencies]
framehop = "*"
libc = "*"
log = "*"
memmap2 = "*"
nix = "0.26"
object = "*"
once_cell = "*"
