[package]
name = "timetracker"
version = "0.1.0"
edition = "2021"
publish = false

[dependencies]
rusqlite = { version = "*", features = ["bundled"] }
parking_lot = "*"
chrono = "*"
log = "*"
serde = { version = "*", features = ["derive"] }
x-win = "*"
user-idle = "*"

[dev-dependencies]
tempfile = "*"
