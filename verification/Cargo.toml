[package]
name = "janus_app"
version = "0.1.0"
edition = "2021"
publish = false

[dependencies]
serde = { version = "=1.0.229", features = ["derive"] }
serde_derive = "=1.0.229"
serde_json = "=1.0.154"
lazy_static = "=1.5.1"
jansson-sys = "=0.1.0"
janus-plugin-sys = { version = "=0.6.0", features = ["refcount"] }
futures = { version = "=0.3.34", features = ["thread-pool"] }
config = { version = "=0.15.27", default-features = false, features = ["toml"] }
