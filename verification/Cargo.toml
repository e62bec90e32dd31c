[package]
name = "personal_site"
version = "0.1.0"
edition = "2021"
publish = false

[dependencies]
chrono = { version = "0.4", default-features = false, features = ["std"] }
egui = "0.27"
egui_commonmark = { version = "0.14", default-features = false, features = ["pulldown_cmark"] }
egui_extras = { version = "0.27", default-features = false }
include_dir = "0.7"
serde = { version = "1", features = ["derive"] }
wasm-bindgen = "0.2"
web-sys = { version = "0.3", features = ["History", "Location", "Window"] }
