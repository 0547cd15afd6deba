[package]
name = "mongol_convert"
version = "0.7.1"
edition = "2021"
publish = false

[dependencies]
zvvnmod-utn57 = "*"
