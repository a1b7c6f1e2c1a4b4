[package]
name = "get_size2"
version = "0.1.0"
edition = "2021"
publish = false

[dependencies]
bytes = "*"
chrono = "*"
chrono-tz = "*"
compact_str = "*"
hashbrown = "*"
indexmap = "*"
ordermap = "*"
smallvec = "*"
thin-vec = "*"
url = "*"
roaring = "*"
orx-concurrent-vec = "*"
