[package]
name = "deribit_models"
version = "0.1.0"
edition = "2021"
publish = false

[dependencies]
fehler = "1"
serde = "1"
serde_derive = "1"
shrinkwraprs = "0.3"
