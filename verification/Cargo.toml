[package]
name = "dbc_viewer"
version = "0.1.0"
edition = "2021"
publish = false

[dependencies]
color-eyre = "=0.6.5"
crossterm = "=0.29.0"
dbc-rs = "=0.7.1"
ratatui = "=0.30.2"
tui-tree-widget = "=0.24.1"
