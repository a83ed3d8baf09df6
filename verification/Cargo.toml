[package]
name = "mapirs"
version = "0.1.0"
edition = "2021"
publish = false

[dependencies]
urlencoding = "*"
sha2 = "*"
libc = "*"
time = { version = "*", features = ["formatting", "macros"] }
winreg = "*"
