[package]
name = "sqlex"
version = "0.1.0"
edition = "2021"
publish = false

[dependencies]
clap = { version = "=4.6.7", features = ["derive"] }
config = "=0.15.27"
fakeit = "=1.4.1"
paste = "=1.0.15"
rayon = "=1.12.0"
regex = "=1.13.1"
serde = { version = "=1.0.229", features = ["derive"] }
serde_json = "=1.0.154"
sql-parse = "=0.28.0"
sql-script-parser = "=0.1.2"
tree-sitter = "=0.19.5"
tree-sitter-sql = "=0.0.2"
