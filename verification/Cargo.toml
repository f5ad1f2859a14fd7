[package]
name = "automaton_renderer"
version = "0.1.0"
edition = "2021"
publish = false

[dependencies]
vulkano = "*"
