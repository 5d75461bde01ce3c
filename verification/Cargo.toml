[package]
name = "camino_tempfile_ext"
version = "0.1.0"
edition = "2021"
publish = false

[dependencies]
anstream = "*"
anstyle = "*"
camino = "*"
camino-tempfile = "*"
globwalk = "*"
predicates = "*"
predicates-core = "*"
predicates-tree = "*"

[dev-dependencies]
anyhow = "*"
