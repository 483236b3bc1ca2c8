[package]
name = "chunk_mesher"
version = "0.1.0"
edition = "2021"
publish = false

[dependencies]
fastnoise-lite = "1.1"
