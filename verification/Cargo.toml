[package]
name = "flakeup"
version = "0.1.0"
edition = "2021"
publish = false

[dependencies]
git2 = { version = "*", default-features = false }
is_sudo = "*"
inquire = "*"
crossterm = "*"
spinners = "*"
thiserror = "*"
