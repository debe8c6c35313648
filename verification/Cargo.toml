[package]
name = "rusty_llama"
version = "0.1.0"
edition = "2021"
publish = false

[dependencies]
futures = "0.3"
gloo-net = { version = "0.5", features = ["websocket"] }
leptos = { version = "0.6", features = ["csr"] }
leptos_meta = { version = "0.6", features = ["csr"] }
web-sys = { version = "0.3", features = ["Window", "Location"] }
