[package]
name = "pydmg-neogeo"
version = "0.1.0"
edition = "2021"
publish = false

[dependencies]
android_logger = "*"
jni = "0.21"
log = "0.4"
once_cell = "1"
