[package]
name = "gpucanvas"
version = "0.1.0"
edition = "2021"
publish = false

[dependencies]
generational-arena = "=0.2.9"
imgref = "=1.12.3"
rgb = "=0.8.53"
fnv = "=1.0.7"
ttf-parser = "=0.25.1"
metal = { version = "=0.33.0", default-features = false }
block = "=0.1.6"
sema = "=0.1.4"
