[package]
name = "provider_blobstore_s3"
version = "0.1.0"
edition = "2021"
publish = false

[dependencies]
anyhow = "=1.0.104"
async-nats = "=0.33.0"
async-trait = "=0.1.92"
aws-sdk-s3 = { version = "=1.155.0", default-features = false, features = ["rt-tokio"] }
aws-smithy-runtime = { version = "=1.16.1", features = ["connector-hyper-0-14-x"] }
bytes = "=1.12.1"
futures = "=0.3.34"
hyper-rustls = { version = "=0.24.2", features = ["http2", "webpki-roots"] }
tokio = { version = "=1.54.1", features = ["io-util", "macros", "rt", "sync"] }
tokio-util = { version = "=0.7.20", features = ["io"] }
tracing = "=0.1.44"
wasmcloud-provider-sdk = "=0.4.0"
wrpc-interface-blobstore = "=0.16.0"
wrpc-transport = "=0.24.3"
