//! The plain data of the service: users, requests, and DNS records as the provider
//! sends and receives them.

use crate::text::{bool_str, bool_text, decimal, decimal_text};
use vstd::prelude::*;
use vstd::string::*;

verus! {

/// A registered user: the claimed subdomain, the address, and the password hash.
#[derive(Debug, Clone, PartialEq, Eq)]
pub struct User {
    pub email: String,
    pub password: String,
    pub subdomain_claim: String,
}

/// `User` with its texts as sequences of characters.
pub struct UserView {
    pub email: Seq<char>,
    pub password: Seq<char>,
    pub subdomain_claim: Seq<char>,
}

impl View for User {
    type V = UserView;

    open spec fn view(&self) -> UserView {
        UserView {
            email: self.email@,
            password: self.password@,
            subdomain_claim: self.subdomain_claim@,
        }
    }
}

/// What a user sends to log in.
#[derive(Debug, Clone, PartialEq, Eq)]
pub struct Login {
    pub email: String,
    pub password: String,
}

/// What a logged-in user is told about their account.
#[derive(Debug, Clone, PartialEq, Eq)]
pub struct WhoAmI {
    pub email: String,
    pub subdomain_claim: String,
}

/// A subdomain with its address and the directory that serves it.
#[derive(Debug, Clone, PartialEq, Eq)]
pub struct DNS {
    pub ip: String,
    pub subdomain: String,
    pub web_path: String,
}

/// A record as the provider lists it: the identifier it assigned, and the address.
///
/// The identifier is valid for one operation only: the record may have been made anew
/// since.
#[derive(Debug, Clone, PartialEq, Eq)]
pub struct Record {
    pub id: String,
    pub content: String,
}

/// `Record` with its texts as sequences of characters.
pub struct RecordView {
    pub id: Seq<char>,
    pub content: Seq<char>,
}

impl View for Record {
    type V = RecordView;

    open spec fn view(&self) -> RecordView {
        RecordView { id: self.id@, content: self.content@ }
    }
}

/// The provider's answer to a query: the records that match, in its order.
#[derive(Debug, Clone, PartialEq, Eq)]
pub struct Records {
    pub result: Vec<Record>,
}

impl View for Records {
    type V = Seq<RecordView>;

    open spec fn view(&self) -> Seq<RecordView> {
        Seq::new(self.result@.len(), |i: int| self.result@[i]@)
    }
}

/// A record as it is sent to the provider.
#[derive(Debug, Clone, PartialEq, Eq)]
pub struct DnsRecord {
    pub record_type: String,
    pub name: String,
    pub ttl: u32,
    pub content: String,
    pub proxied: bool,
}

/// `DnsRecord` with its texts as sequences of characters.
pub struct DnsRecordView {
    pub record_type: Seq<char>,
    pub name: Seq<char>,
    pub ttl: u32,
    pub content: Seq<char>,
    pub proxied: bool,
}

impl View for DnsRecord {
    type V = DnsRecordView;

    open spec fn view(&self) -> DnsRecordView {
        DnsRecordView {
            record_type: self.record_type@,
            name: self.name@,
            ttl: self.ttl,
            content: self.content@,
            proxied: self.proxied,
        }
    }
}

impl DnsRecordView {
    /// The body that carries this record to the provider: one JSON object with the
    /// fields `type`, `name`, `ttl`, `content` and `proxied`, in this order, the texts
    /// written between quotes as they are.
    pub open spec fn wire(self) -> Seq<char> {
        "{\"type\":\""@ + self.record_type + "\",\"name\":\""@ + self.name + "\",\"ttl\":"@
            + decimal(self.ttl as nat) + ",\"content\":\""@ + self.content + "\",\"proxied\":"@
            + bool_text(self.proxied) + "}"@
    }
}

impl DnsRecord {
    pub fn new(record_type: String, name: String, ttl: u32, content: String, proxied: bool) -> (r:
        Self)
        ensures
            r@ == (DnsRecordView {
                record_type: record_type@,
                name: name@,
                ttl: ttl,
                content: content@,
                proxied: proxied,
            }),
    {
        DnsRecord { record_type, name, ttl, content, proxied }
    }

    /// The body that carries this record to the provider.
    pub fn to_string(&self) -> (r: String)
        ensures
            r@ == self@.wire(),
    {
        let mut r = String::from_str("{\"type\":\"");
        r.append(self.record_type.as_str());
        r.append("\",\"name\":\"");
        r.append(self.name.as_str());
        r.append("\",\"ttl\":");
        let ttl = decimal_text(self.ttl);
        r.append(ttl.as_str());
        r.append(",\"content\":\"");
        r.append(self.content.as_str());
        r.append("\",\"proxied\":");
        r.append(bool_str(self.proxied));
        r.append("}");
        r
    }
}

/// A request to make or remove the site of a subdomain.
#[derive(Debug, Clone, PartialEq, Eq)]
pub struct SubdomainRequest {
    pub user_id: String,
    pub business_id: String,
    pub subdomain: String,
}

/// A request to add, change or remove the page behind a slug.
#[derive(Debug, Clone, PartialEq, Eq)]
pub struct SlugRequest {
    pub user_id: String,
    pub business_id: String,
    pub slug: String,
    pub previous_slug: String,
    pub site_id: String,
    pub rewrite_target: Option<String>,
    pub subdomain: String,
}

} // verus!
