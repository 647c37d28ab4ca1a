[package]
name = "todo_core"
version = "0.1.0"
edition = "2021"
publish = false

[dependencies]
ncurses = "5.101.0"
