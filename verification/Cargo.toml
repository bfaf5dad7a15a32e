[package]
name = "runh"
version = "0.1.0"
edition = "2021"
publish = false

[dependencies]
goblin = "*"
clap = "2"
colour = "*"
command-fds = "*"
libc = "*"
log = "*"
nix = "0.26"
oci-spec = "*"
serde = { version = "*", features = ["derive"] }
serde_json = "*"
