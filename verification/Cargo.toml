[package]
name = "thelio_io_tester"
version = "0.1.0"
edition = "2021"
publish = false

[dependencies]
hidapi = "*"
system76_ectool = "*"
proc-mounts = "*"
sysfs-class = "*"
termion = "*"
