[package]
name = "timeline_date"
version = "0.1.0"
edition = "2021"
publish = false

[dependencies]
jiff = "=0.2.39"
mf2_i18n = { version = "=0.1.0", features = ["embedded", "std_backend", "runtime"] }
icu_calendar = "=2.4.0"
icu_locale = "=2.4.0"
icu_datetime = "=2.4.0"
serde = { version = "=1.0.229", features = ["derive"] }
thiserror = "=2.0.21"
