[package]
name = "thesis_portal"
version = "0.1.0"
edition = "2021"
publish = false

[dependencies]
bson = { version = "=3.1.0", features = ["serde"] }
chrono = { version = "=0.4.45", features = ["serde"] }
gloo = "=0.12.0"
mime = "=0.3.17"
serde = { version = "=1.0.229", features = ["derive", "rc"] }
serde_json = "=1.0.154"
serde_with = "=3.24.0"
thiserror = "=2.0.21"
url = { version = "=2.5.8", features = ["serde"] }
wasm-bindgen = "=0.2.129"
wasm-bindgen-futures = "=0.4.79"
web-sys = { version = "=0.3.106", features = ["FormData", "HtmlFormElement", "HtmlInputElement", "HtmlTextAreaElement", "InputEvent", "RequestCredentials", "SubmitEvent"] }
yew = { version = "=0.23.0", features = ["csr"] }
yew-router = "=0.20.0"
