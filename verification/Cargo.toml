[package]
name = "file_manager_cli"
version = "0.1.0"
edition = "2021"
publish = false

[dependencies]
chrono = "*"
glob = "*"
walkdir = "*"
clap = "*"
