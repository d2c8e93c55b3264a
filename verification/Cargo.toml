[package]
name = "semantic_index"
version = "0.1.0"
edition = "2021"
publish = false

[dependencies]
byteorder = "=1.5.0"
ndarray = "=0.15.6"
ort = { version = "=2.0.0-rc.2", default-features = false, features = ["half", "load-dynamic", "ndarray"] }
# ort 2.0.0-rc.2 compiles only against the ort-sys of the same release;
# without this line a later one is picked.
ort-sys = { version = "=2.0.0-rc.2", default-features = false }
rusqlite = { version = "=0.31.0", features = ["bundled", "functions", "load_extension"] }
tokenizers = "=0.19.1"
