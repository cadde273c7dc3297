[package]
name = "cells_sync"
version = "0.1.0"
edition = "2021"
publish = false

[dependencies]
md-5 = "0.10"
walkdir = "2"
serde = { version = "1", features = ["derive"] }
serde_json = "1"
surf = { version = "2", default-features = false, features = ["h1-client-rustls"] }
async-std = "1"
aws-sdk-s3 = "1"
