[package]
name = "stu"
version = "0.1.0"
edition = "2021"
publish = false

[dependencies]
log = "0.4"
thiserror = "1"
native-windows-gui = "1"
native-windows-derive = "1"
