[package]
name = "aim_calibrate"
version = "0.1.0"
edition = "2021"
publish = false

[dependencies]
enigo = "=0.3.0"
once_cell = "=1.21.4"
serde = { version = "=1.0.229", features = ["derive"] }
serde_json = "=1.0.154"
winapi = { version = "=0.3.9", features = ["winuser", "windef", "minwindef"] }
