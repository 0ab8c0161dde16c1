[package]
name = "hserver"
version = "0.1.0"
edition = "2021"
publish = false

[dependencies]
http = "1"
http-body = "1"
hyper = { version = "1", features = ["http1", "http2", "server"] }
hyper-util = { version = "0.1", features = ["http1", "http2", "server", "server-auto", "service", "tokio"] }
pin-project = "1"
rustls = { version = "0.23", default-features = false, features = ["ring", "std", "tls12"] }
tokio = { version = "1", features = ["io-util", "macros", "net", "rt", "rt-multi-thread", "sync", "time"] }
tokio-rustls = { version = "0.26", default-features = false, features = ["ring", "tls12"] }
tower-service = "0.3"

[dev-dependencies]
futures = "0.3"
h2 = "0.4"
http-body-util = "0.1"
rcgen = { version = "0.14", default-features = false, features = ["crypto", "ring"] }
