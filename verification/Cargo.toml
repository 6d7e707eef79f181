[package]
name = "depsync"
version = "0.1.0"
edition = "2021"
publish = false

[dependencies]
argparse = "0.2"
git2 = { version = "0.18", default-features = false }
path-clean = "0.1"
remove_dir_all = "0.5"
rpassword = "5"
serde = "1"
serde_derive = "1"
toml = "0.5"
whoami = "1"
