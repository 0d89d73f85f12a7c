[package]
name = "fountain_raptor_10"
version = "0.1.0"
edition = "2021"
publish = false

[dependencies]
fountain_engine = "=1.3.2"
fountain_scheme = "=1.3.0"
