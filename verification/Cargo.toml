[package]
name = "viewlume"
version = "0.1.0"
edition = "2021"
publish = false

[dependencies]
natord = "=1.0.9"
kamadak-exif = "=0.5.5"
image = { version = "=0.25.10", default-features = false, features = ["png", "jpeg", "webp", "gif", "bmp", "tiff", "qoi", "ico", "tga", "dds", "exr", "hdr", "ff", "pnm"] }
fast_image_resize = "=5.5.0"
quick_cache = "=0.6.24"
crossbeam-channel = "=0.5.17"
serde = { version = "=1.0.229", features = ["derive"] }
toml = "=0.8.23"
directories = "=5.0.1"
egui = "=0.29.1"
