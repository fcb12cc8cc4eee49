[package]
name = "pultflut_updater"
version = "0.1.0"
edition = "2021"
publish = false

[dependencies]
qbsdiff = "=1.4.4"
log = "=0.4.35"
jni = "=0.21.1"
android_logger = "*"
