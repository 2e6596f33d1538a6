[package]
name = "subspace_client"
version = "0.1.0"
edition = "2021"
publish = false

[dependencies]
anyhow = "1"
ctrlc = "3"
miniz_oxide = "0.8"
rand = "0.9"
