[package]
name = "appctx"
version = "0.1.0"
edition = "2021"
publish = false

[dependencies]
aabb-quadtree = "0.1.0"
hlua = "0.4"
image = { version = "*", default-features = false }
