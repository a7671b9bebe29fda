[package]
name = "site_components"
version = "0.1.0"
edition = "2021"
publish = false

[dependencies]
axum = "=0.6.20"
axum-extra = { version = "=0.7.7", features = ["cookie"] }
leptos = { version = "=0.4.10", default-features = false, features = ["serde", "ssr"] }
leptos_axum = "=0.4.10"
leptos_meta = { version = "=0.4.10", default-features = false, features = ["ssr"] }
leptos_router = { version = "=0.4.10", default-features = false, features = ["ssr"] }
serde = { version = "=1.0.229", features = ["derive"] }
tracing = "=0.1.44"
wasm-bindgen = "=0.2.129"
web-sys = { version = "=0.3.106", features = ["Document", "HtmlDocument", "MediaQueryList", "Window"] }
