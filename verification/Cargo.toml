[package]
name = "dbc_batch"
version = "0.1.0"
edition = "2021"
publish = false

[dependencies]
dbc-codegen = "=0.3.0"
can-dbc = "=5.0.0"
heck = "=0.5.0"
clap = { version = "=4.6.7", features = ["derive"] }
exitcode = "=1.1.2"
