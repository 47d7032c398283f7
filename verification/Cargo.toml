[package]
name = "zero2prod"
version = "0.1.0"
edition = "2021"
publish = false

[dependencies]
axum = "=0.6.6"
bb8 = "=0.8.6"
bb8-postgres = "=0.8.1"
config = { version = "=0.13.4", default-features = false, features = ["yaml"] }
hyper = { version = "=0.14.32", features = ["server", "tcp", "http1"] }
openssl = "=0.10.82"
postgres-openssl = "=0.5.3"
secrecy = { version = "=0.8.0", features = ["serde"] }
serde = { version = "=1.0.229", features = ["derive"] }
time = "=0.3.55"
tokio = { version = "=1.54.1", features = ["macros", "rt-multi-thread", "net"] }
tokio-postgres = { version = "=0.7.18", features = ["with-uuid-1", "with-time-0_3"] }
tower-http = { version = "=0.4.4", features = ["trace"] }
tracing = "=0.1.44"
unicode-segmentation = "=1.13.3"
uuid = { version = "=1.29.0", features = ["v4"] }
