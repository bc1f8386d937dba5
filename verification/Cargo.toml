[package]
name = "aqiv"
version = "0.1.0"
edition = "2021"
publish = false

[dependencies]
bayer = "=0.1.5"
rawloader = "0.37"
image = { version = "0.25", default-features = false, features = ["bmp", "dds", "exr", "ff", "gif", "hdr", "ico", "jpeg", "png", "pnm", "qoi", "tga", "tiff", "webp", "rayon"] }
resvg = "*"
usvg = "*"
libheif-rs = "*"
jpegxl-rs = { version = "*", features = ["image"] }
rayon = "1"
clap = { version = "4", features = ["derive"] }
dirs = "*"
screen_size = "*"
common_macros = "*"
egui = "*"
egui_extras = "*"
egui_material_icons = "*"
egui-notify = "*"
