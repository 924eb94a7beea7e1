[package]
name = "mediacodec"
version = "0.1.0"
edition = "2021"
publish = false

[dependencies]
jni = "*"
log = "0.4"
ndk-context = "0.1"
