[package]
name = "novel_downloader"
version = "0.1.0"
edition = "2021"
publish = false

[dependencies]
clap = "2.33"
easy-scraper = "*"
num_cpus = "1"
regex = "1"
reqwest = { version = "0.11", features = ["blocking"] }
simple_disk_cache = "*"
threadpool = "1"
