[package]
name = "pam_modules"
version = "0.1.0"
edition = "2021"
publish = false

[dependencies]
argon2 = "=0.5.3"
password-hash = { version = "=0.5.0", features = ["getrandom", "std"] }
toml = "=1.1.8"
path_ratchet = "=1.0.0"
birdcage = "=0.6.0"
pamsm = { version = "=0.5.5", features = ["libpam"] }
clap = { version = "=4.6.7", features = ["derive", "env"] }
error-stack = "=0.4.1"
rpassword = "=7.5.4"
sysexits = "=0.13.0"
thiserror = "=1.0.69"
serde = { version = "=1.0.229", features = ["derive"] }
serde_derive = "=1.0.229"
