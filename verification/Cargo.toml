[package]
name = "rplayer"
version = "0.1.0"
edition = "2021"
publish = false

[dependencies]
async-channel = "*"
crossterm = "*"
futures-util = "*"
getopts = "*"
mpris-server = "*"
ratatui = "*"
rodio = "*"
walkdir = "*"
