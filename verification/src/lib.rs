//! Subdomains for the tenants of a hosting service.
//!
//! A subdomain is two address records at the DNS provider, a base record and a
//! wildcard record, and a configuration file for the web server with one location
//! block for each slug of the site. `cloudflare` keeps the two records in step with
//! the address that the subdomain should have; `trace` and `zone` state what its
//! operations come to. `blocks` and `updater` change the configuration file.
//! `accounts`, `jwt` and `utils` decide who may claim a subdomain.
//!
//! The library reaches neither the network nor the file system: it says what is to be
//! asked or done, and is handed what came back.

pub mod accounts;
pub mod blocks;
pub mod cloudflare;
pub mod config;
pub mod errors;
pub mod jwt;
pub mod models;
pub mod text;
pub mod trace;
pub mod updater;
pub mod utils;
pub mod zone;
