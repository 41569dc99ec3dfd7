[package]
name = "size-of"
version = "0.1.0"
edition = "2021"
publish = false

[dependencies]
arcstr = "=1.2.0"
rust_decimal = { version = "=1.43.0", default-features = false, features = ["std"] }
num-bigint = "=0.4.8"
bigdecimal = "=0.3.1"
chrono = { version = "=0.4.45", default-features = false, features = ["std", "clock"] }
ahash = "=0.8.12"
fxhash = "=0.2.1"
xxhash-rust = { version = "=0.8.19", features = ["xxh32", "xxh64", "xxh3"] }
time = { version = "=0.3.55", features = ["std"] }
syn = { version = "=1.0.109", features = ["full"] }
quote = "=1.0.47"
proc-macro2 = "=1.0.107"
