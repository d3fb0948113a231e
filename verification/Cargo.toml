[package]
name = "horned_owl"
version = "0.1.0"
edition = "2021"
publish = false

[dependencies]
curie = "=0.1.4"
pest = "=2.9.4"
pest_derive = "=2.9.4"

[dev-dependencies]
pest_meta = "=2.9.4"
pest_vm = "2.9"
