[package]
name = "fungi"
version = "0.1.0"
edition = "2021"
publish = false

[dependencies]
bitcoin = "=0.32.102"
capnp = "0.21"
capnp-rpc = "0.21"
futures-core = "0.3"
futures-util = "0.3"
rand = "=0.9.5"
thiserror = "2"
tokio = { version = "=1.54.1", features = ["full"] }
tokio-util = { version = "0.7", features = ["compat"] }
