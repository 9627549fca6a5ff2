[package]
name = "magent_autonomy"
version = "0.1.0"
edition = "2021"
publish = false

[dependencies]
pathfinding = "*"
pyo3 = "*"
