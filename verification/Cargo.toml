[package]
name = "multicast_socket"
version = "0.1.0"
edition = "2021"
publish = false

[dependencies]
nix = "=0.26.4"
get_if_addrs = "=0.5.3"
libc = "=0.2.190"
