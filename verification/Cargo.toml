[package]
name = "todo_tui"
version = "0.1.0"
edition = "2021"
publish = false

[dependencies]
directories = "=6.0.0"
libc = "=0.2.190"
ncurses = "=5.94.0"
