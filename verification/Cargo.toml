[package]
name = "ftl_locale"
version = "0.1.0"
edition = "2021"
publish = false

[dependencies]
fluent = "*"
fluent-bundle = "*"
fluent-syntax = "*"
intl-memoizer = "*"
unic-langid = "*"
