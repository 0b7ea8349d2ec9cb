[package]
name = "midas"
version = "0.1.0"
edition = "2021"
publish = false

[dependencies]
deno_ast = { version = "*", features = ["transpiling"] }
clap = { version = "*", features = ["derive"] }
serde_json = "*"
owo-colors = "*"
