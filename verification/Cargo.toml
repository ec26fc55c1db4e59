[package]
name = "glimmerkit_build"
version = "0.1.0"
edition = "2021"
publish = false

[dependencies]
regex = "=1.13.1"
pathdiff = "=0.2.3"
relative-path = "=1.9.3"
yaml-rust = "=0.4.5"
glob = "=0.3.4"
globwalk = "=0.9.1"
swc_common = "=26.0.0"
swc_ecma_ast = "=29.0.2"
swc_ecma_parser = "=46.1.2"
swc_ecma_visit = "=29.0.0"
swc_ecma_codegen = "=32.0.5"
swc_ecma_transforms_base = "*"
swc_ecma_transforms_typescript = "*"
