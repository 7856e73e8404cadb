[package]
name = "ulexec"
version = "0.1.0"
edition = "2021"
publish = false

[dependencies]
goblin = "*"
nix = { version = "0.29", features = ["fs"] }
memfd-exec = "*"
userland-execve = "*"
memexec = "*"
reqwest = { version = "0.12", default-features = false, features = ["blocking", "rustls-tls"] }
