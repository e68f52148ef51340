[package]
name = "agent_os"
version = "0.1.0"
edition = "2021"
publish = false

[dependencies]
libc = "0.2"
serde = { version = "=1.0.229", features = ["derive"] }
serde_json = "=1.0.154"
sha2 = "=0.10.9"
tempfile = "=3.27.0"
ureq = { version = "=3.5.1", features = ["json"] }
uuid = "=1.29.0"
wasmtime = { version = "=44.0.3", default-features = false, features = ["cranelift", "runtime", "std"] }
wasmtime-wasi = { version = "=44.0.3", default-features = false, features = ["p1"] }
