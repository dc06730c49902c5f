[package]
name = "ibis_core"
version = "0.1.0"
edition = "2021"
publish = false

[dependencies]
activitypub_federation = { version = "=0.6.6", default-features = false }
async-trait = "=0.1.92"
chrono = { version = "=0.4.45", features = ["serde"] }
clokwerk = "=0.4.0"
diesel = { version = "=2.3.14", features = ["postgres", "chrono", "r2d2"] }
doku = "=0.22.0"
fmtm = "=0.0.4"
fmtm_ytmimi_markdown_fmt = "=0.0.4"
futures = "=0.3.34"
leptos = "*"
leptos_router = "*"
log = "=0.4.34"
markdown-it = { version = "=0.6.1", default-features = false }
markdown-it-block-spoiler = "*"
markdown-it-footnote = "*"
markdown-it-heading-anchors = "*"
markdown-it-sub = "*"
markdown-it-sup = "*"
serde = { version = "=1.0.229", features = ["derive"] }
smart-default = "=0.7.1"
url = "=2.5.8"
