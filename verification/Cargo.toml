[package]
name = "facet_owned_shape"
version = "0.1.0"
edition = "2021"
publish = false

[dependencies]
facet = "*"
sea-query = "*"
