[package]
name = "php_v8"
version = "0.1.0"
edition = "2021"
publish = false

[dependencies]
v8 = "*"
ext-php-rs = "*"
