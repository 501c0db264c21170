[package]
name = "gpapi"
version = "0.1.0"
edition = "2021"
publish = false

[dependencies]
base64 = "=0.23.1"
dns-lookup = "=4.0.2"
html-escape = "=0.3.0"
md5 = "=0.8.1"
netdev = "=0.47.0"
os_info = { version = "=3.15.0", default-features = false }
regex = "=1.13.1"
serde_urlencoded = "=0.7.1"
urlencoding = "=2.1.3"
uuid = { version = "=1.29.0", features = ["v4", "v5"] }
whoami = "=2.1.3"
xmltree = { version = "=0.12.0", features = ["attribute-sorted"] }
anyhow = "=1.0.104"
log = "=0.4.35"
serde = { version = "=1.0.229", features = ["derive"] }
serde_json = "=1.0.154"
tokio = { version = "=1.54.1", features = ["rt-multi-thread", "macros", "net", "time", "sync", "io-util"] }
reqwest = { version = "=0.12.28", default-features = false, features = ["rustls-tls", "json"] }
clap = { version = "=4.6.7", features = ["derive"] }
chrono = "=0.4.45"
is_executable = "=1.0.6"
roxmltree = "*"
which = "*"
webbrowser = "*"
open = "*"
env_logger = "*"
clap-verbosity-flag = "*"
uzers = "*"
tiny_http = "*"
tempfile = "*"
