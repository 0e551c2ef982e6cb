[package]
name = "redmine_new_branch"
version = "0.1.0"
edition = "2021"
publish = false

[dependencies]
confy = "*"
diacritics = "*"
dialoguer = "*"
git2 = "*"
regex = "1"
reqwest = { version = "*", features = ["blocking"] }
serde = { version = "1", features = ["derive"] }
serde_json = "1"
structopt = "0.3"
