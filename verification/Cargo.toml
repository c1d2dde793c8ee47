[package]
name = "patternfly_ui"
version = "0.1.0"
edition = "2021"
publish = false

[dependencies]
log = "0.4"
yew = "0.21"
