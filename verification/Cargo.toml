[package]
name = "scd30_i2c"
version = "0.1.0"
edition = "2021"
publish = false

[dependencies]
i2cdev = "*"
