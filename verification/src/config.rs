//! The settings of the service, read once when it starts and handed to each component.

use vstd::prelude::*;

verus! {

#[derive(Debug, Clone, PartialEq, Eq)]
pub struct Config {
    pub jwt_secret: String,
    pub smtp_host: String,
    pub smtp_username: String,
    pub smtp_password: String,
    pub smtp_from_email: String,
    pub smtp_from_name: String,
    pub base_url: String,
    pub prefix: String,
    pub cf_email: String,
    pub cf_api_key: String,
    pub cf_zone_id: String,
    pub dns_suffix: String,
    pub database_path: String,
    pub ip: String,
}

} // verus!
