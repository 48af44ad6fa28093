[package]
name = "accesskit_jni"
version = "0.1.0"
edition = "2021"
publish = false

[dependencies]
accesskit = { version = "=0.25.1", features = ["enumn"] }
accesskit_macos = "=0.27.1"
accesskit_windows = "=0.35.1"
jni = "=0.21.1"
