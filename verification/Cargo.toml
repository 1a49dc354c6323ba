[package]
name = "amethyst_rhusics"
version = "0.1.0"
edition = "2021"
publish = false

[dependencies]
amethyst_core = "=0.5.0"
cgmath = "=0.16.1"
collision = "=0.18.0"
genmesh = "=0.6.2"
rand = "=0.5.6"
rhusics-core = "=0.7.0"
rhusics-ecs = "=0.7.0"
shrev = "=1.1.3"
specs = "=0.14.3"
