[package]
name = "icon_grid"
version = "0.1.0"
edition = "2021"
publish = false

[dependencies]
console_error_panic_hook = "0.1"
derive_more = { version = "*", features = ["deref"] }
icondata = "*"
leptos = { version = "*", features = ["csr"] }
leptos_icons = "*"
tracing = "0.1"
tracing-subscriber = { version = "0.3", features = ["time"] }
tracing-web = "*"
