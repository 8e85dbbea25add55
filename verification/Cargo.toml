[package]
name = "rackbox"
version = "0.1.0"
edition = "2021"
publish = false

[dependencies]
actix-web = { version = "4", default-features = false, features = ["macros"] }
ctrlc = { version = "3", features = ["termination"] }
libc = "0.2"
log = "0.4"
nix = "0.26"
rppal = "0.14"
serde = { version = "1", features = ["derive"] }
serde_json = "1"
sysinfo = "0.29"
syslog = "6"
