[package]
name = "clavy"
version = "0.1.0"
edition = "2021"
publish = false

[dependencies]
accessibility-sys = "*"
block2 = "*"
clap = { version = "*", features = ["derive", "env"] }
core-foundation = "*"
core-graphics = "*"
embed_plist = "*"
launchctl = "*"
libc = "*"
objc2 = "*"
objc2-app-kit = "*"
objc2-core-foundation = "*"
objc2-foundation = "*"
smol = "*"
thiserror = "*"
tracing = "*"
tracing-subscriber = "*"
