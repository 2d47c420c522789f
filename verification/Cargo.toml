[package]
name = "oper_delta"
version = "0.1.0"
edition = "2021"
publish = false

[dependencies]
anyhow = "=1.0.104"
app_dirs = "=1.2.1"
# Not used by this crate itself: spsheet adds a duration of the time crate to a
# chrono date, which later versions of chrono do not take.
chrono = "=0.4.19"
clap = "=2.34.0"
console = "=0.16.6"
csv = "=1.4.0"
cursive = { version = "=0.21.1", features = ["toml"] }
git2 = { version = "=0.13.25", default-features = false }
indicatif = { version = "=0.15.0", features = ["with_rayon"] }
lazy_static = "=1.5.1"
num_cpus = "=1.17.0"
rayon = "=1.12.0"
serde = { version = "=1.0.229", features = ["derive"] }
serde-xml-rs = "=0.4.1"
spsheet = { version = "=0.1.0", features = ["ods", "xlsx"] }
toml = "=0.5.11"
