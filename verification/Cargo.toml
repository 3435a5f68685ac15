[package]
name = "vfx_ocio"
version = "0.1.0"
edition = "2021"
publish = false

[dependencies]
saphyr = "=0.3.3"
glob = "=0.3.4"
regex = "=1.13.1"
thiserror = "=2.0.21"
glam = "*"
