[package]
name = "deno_terminal"
version = "0.2.0"
edition = "2021"
publish = false

[dependencies]
once_cell = "1"
termcolor = "1"
