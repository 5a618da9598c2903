[package]
name = "tk_listbox"
version = "0.1.0"
edition = "2021"
publish = false

[dependencies]
tcl = "*"
clib = "*"
tuplex = "*"
enumx = "*"
cex = "*"
