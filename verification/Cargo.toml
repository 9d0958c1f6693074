[package]
name = "jgnash_launcher"
version = "0.1.0"
edition = "2021"
publish = false

[dependencies]
java-locator = "*"
msgbox = "*"
