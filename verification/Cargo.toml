[package]
name = "is_svg"
version = "0.2.0"
edition = "2021"
publish = false

[dependencies]
usvg = { version = "=0.49.0", default-features = false, features = ["svgz"] }

[dev-dependencies]
flate2 = "=1.1.10"
