[package]
name = "rust_chess"
version = "0.1.0"
edition = "2021"
publish = false

[dependencies]
regex = "=1.13.1"
colored = "=3.1.1"
serde = { version = "=1.0.229", features = ["derive"] }
serde_json = "=1.0.154"
reqwest = { version = "=0.13.5", default-features = false, features = ["blocking", "json"] }
cgmath = "=0.18.0"
gl = "=0.14.0"
glfw = { version = "0.55", default-features = false }
rocket = { version = "=0.5.2", features = ["json"] }
diesel = { version = "=2.3.14", features = ["postgres"] }
dotenv = "=0.15.0"
