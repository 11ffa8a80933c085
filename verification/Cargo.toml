[package]
name = "refetch"
version = "0.1.0"
edition = "2021"
publish = false

[dependencies]
base64 = "*"
url = "*"
bytes = "*"
futures-util = "*"
glob = "*"
libc = "*"
reqwest = { version = "*", default-features = false, features = ["rustls-tls", "stream", "socks"] }
rusqlite = { version = "*", features = ["bundled"] }
tokio = { version = "*", features = ["rt-multi-thread", "macros", "fs", "io-util", "time"] }
zip = { version = "*", default-features = false, features = ["deflate"] }
