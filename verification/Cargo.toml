[package]
name = "hebrew_unicode_utils"
version = "0.1.0"
edition = "2021"
publish = false

[dependencies]
hebrew_unicode_script = "*"
