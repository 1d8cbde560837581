[package]
name = "gateway"
version = "0.2.0"
edition = "2021"
publish = false

[dependencies]
bytesize = "*"
chrono = "0.4"
content_inspector = "*"
crossterm = "0.25"
dirs = "*"
edit = "*"
ftp = "3.0.1"
getopts = "*"
hostname = "*"
rpassword = "*"
tempfile = "*"
textwrap = "*"
tui = "0.19"
unicode-width = "*"
users = "*"
whoami = "*"
