[package]
name = "statusbar"
version = "0.1.0"
edition = "2021"
publish = false

[dependencies]
chrono = { version = "0.4", default-features = false, features = ["clock", "std"] }
sysinfo = { version = "0.29", default-features = false }
xcb = "1"
ctrlc = "3"
snafu = "0.7"
