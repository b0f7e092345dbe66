[package]
name = "lazy_vec"
version = "0.1.0"
edition = "2021"

[dependencies]
shrink-to-fit = "*"
