[package]
name = "leap"
version = "0.1.0"
edition = "2021"
publish = false

[dependencies]
uuid = "1"
http = "1"
serde = { version = "1", features = ["derive"] }
serde_json = "1"
tokio = { version = "1", features = ["fs", "io-util", "rt", "macros", "sync", "time", "process"] }
tokio-stream = "0.1"
async-stream = "0.3"
async-trait = "0.1"
anyhow = "1"
tracing = "0.1"
log = "0.4"
tracing-subscriber = { version = "0.3", features = ["env-filter", "registry"] }
tracing-bunyan-formatter = "0.3"
diesel = { version = "2", features = ["sqlite"] }
yew = { version = "0.21", features = ["csr"] }
yew-router = "0.18"
gloo-net = "0.6"
wasm-bindgen = "0.2"
wasm-bindgen-futures = "0.4"
web-sys = { version = "0.3", features = ["EventSource", "MessageEvent", "HtmlInputElement"] }
