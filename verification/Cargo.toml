[package]
name = "refresh_rate_windows_rs"
version = "0.1.0"
edition = "2021"
publish = false

[dependencies]
winapi = { version = "0.3", features = ["guiddef", "minwindef", "windef", "winnt", "cfgmgr32", "errhandlingapi", "handleapi", "libloaderapi", "setupapi", "shellapi", "wingdi", "winuser"] }
