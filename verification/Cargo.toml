[package]
name = "pam_any"
version = "0.1.0"
edition = "2021"
publish = false

[dependencies]
pam-bindings = "*"
pam-client2 = "*"
rustix = { version = "1", features = ["event", "net", "termios", "std"] }
serde = { version = "1", features = ["derive"] }
serde_json = "1"
termios = "*"
libc = "0.2"
