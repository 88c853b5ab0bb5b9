[package]
name = "planner_tables"
version = "0.1.0"
edition = "2021"
publish = false

[dependencies]
arrow = { version = "53", default-features = false }
arrow-schema = "53"
datafusion = { version = "43", default-features = false }
