[package]
name = "dungeon_core"
version = "0.1.0"
edition = "2021"
publish = false

[dependencies]
anyhow = "=1.0.104"
ascii = "=1.1.0"
# With the bindings that ship with the crate, not those made while building ncurses.
ncursesw = { version = "=0.6.4", features = ["docs-rs"] }
num-traits = "=0.2.19"
termion = "=4.0.6"
