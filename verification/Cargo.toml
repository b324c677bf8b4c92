[package]
name = "shellchat"
version = "0.1.0"
edition = "2021"
publish = false

[dependencies]
async-trait = "=0.1.92"
chrono = "=0.4.45"
clap = { version = "=4.6.7", features = ["derive"] }
console = "=0.16.6"
dirs = "=7.0.0"
futures = "=0.3.34"
is-terminal = "=0.4.17"
os_info = "=3.15.0"
reqwest = { version = "=0.13.5", features = ["json", "stream"] }
rmcp = { version = "=3.7.0", default-features = false, features = ["client", "reqwest", "transport-child-process", "transport-streamable-http-client-reqwest"] }
rustyline = "=19.0.0"
serde = { version = "=1.0.229", features = ["derive"] }
serde_json = "=1.0.154"
serde_yml = "=0.0.13"
termimad = "=0.35.5"
thiserror = "=2.0.21"
tokio = { version = "=1.54.1", features = ["full"] }

[dev-dependencies]
regex = "=1.13.1"
