[package]
name = "fs_mediator"
version = "0.1.0"
edition = "2021"
publish = false

[dependencies]
deno_core = "*"
deno_fs = "*"
deno_io = "*"
deno_permissions = "*"
