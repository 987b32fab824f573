//! Keeping the two address records of a subdomain, the base record and the wildcard
//! record, in step with the address that the subdomain should have.
//!
//! The provider is reached over the network, which this library does not do. An
//! operation is therefore a `Job` that is advanced one exchange at a time: each
//! `Step` either asks for one `Command` to be carried out, or ends the operation
//! with its `Outcome`. Whoever drives the job turns the command into a `Request`
//! with `Cloudflare::request`, sends it, and hands what came back to
//! `Cloudflare::resume` as a `Reply`.
//!
//! Nothing is remembered between operations: every operation looks a record up
//! before it changes it.

use crate::config::Config;
use crate::errors::{ErrorKind, ErrorKindView};
use crate::models::{DnsRecord, DnsRecordView, Record, RecordView, Records};
use crate::text::join3;
use vstd::pervasive::unreached;
use vstd::prelude::*;
use vstd::string::*;

verus! {

#[derive(Debug, Clone, Copy, PartialEq, Eq, Structural)]
pub enum Method {
    Get,
    Post,
    Put,
    Delete,
}

/// One HTTP request to the provider. The token is sent as a bearer token, the body as
/// JSON.
#[derive(Debug, Clone, PartialEq, Eq)]
pub struct Request {
    pub method: Method,
    pub url: String,
    pub bearer: String,
    pub body: Option<String>,
}

/// `Request` with its texts as sequences of characters.
pub struct RequestView {
    pub method: Method,
    pub url: Seq<char>,
    pub bearer: Seq<char>,
    pub body: Option<Seq<char>>,
}

impl View for Request {
    type V = RequestView;

    open spec fn view(&self) -> RequestView {
        RequestView {
            method: self.method,
            url: self.url@,
            bearer: self.bearer@,
            body: match self.body {
                Some(b) => Some(b@),
                None => None,
            },
        }
    }
}

/// What an operation asks of the provider.
#[derive(Debug, Clone, PartialEq, Eq)]
pub enum Command {
    /// List the address records with this name.
    Lookup(String),
    /// Make this record.
    Create(DnsRecord),
    /// Put this record in the place of the one with this identifier.
    Replace(String, DnsRecord),
    /// Remove the record with this identifier.
    Remove(String),
}

/// `Command` with its texts as sequences of characters.
pub enum CommandView {
    Lookup(Seq<char>),
    Create(DnsRecordView),
    Replace(Seq<char>, DnsRecordView),
    Remove(Seq<char>),
}

impl View for Command {
    type V = CommandView;

    open spec fn view(&self) -> CommandView {
        match *self {
            Command::Lookup(name) => CommandView::Lookup(name@),
            Command::Create(record) => CommandView::Create(record@),
            Command::Replace(id, record) => CommandView::Replace(id@, record@),
            Command::Remove(id) => CommandView::Remove(id@),
        }
    }
}

/// What came back for a request.
#[derive(Debug, PartialEq, Eq)]
pub enum Reply {
    /// No answer was read to its end (timeout, name resolution, TLS); with the cause.
    Transport(String),
    /// An answer: its status, its body, and the listing that the body decodes to, or
    /// why it does not decode. The listing is read for a `Command::Lookup` only.
    Http { status: u16, body: String, listing: Result<Records, String> },
}

/// `Reply` with its texts as sequences of characters.
pub enum ReplyView {
    Transport(Seq<char>),
    Http { status: u16, body: Seq<char>, listing: Result<Seq<RecordView>, Seq<char>> },
}

impl View for Reply {
    type V = ReplyView;

    open spec fn view(&self) -> ReplyView {
        match *self {
            Reply::Transport(cause) => ReplyView::Transport(cause@),
            Reply::Http { status, body, listing } => ReplyView::Http {
                status,
                body: body@,
                listing: match listing {
                    Ok(records) => Ok(records@),
                    Err(cause) => Err(cause@),
                },
            },
        }
    }
}

/// The statuses that accept a request: 200 to 299.
pub open spec fn is_success(status: u16) -> bool {
    200 <= status < 300
}

impl ReplyView {
    /// What a lookup learns from this reply: the first record listed, or that none
    /// is; a status outside 2xx is `RemoteRejected`, and an answer that did not
    /// arrive or does not decode is `Transport`.
    pub open spec fn lookup(self) -> Result<Option<RecordView>, ErrorKindView> {
        match self {
            ReplyView::Transport(cause) => Err(ErrorKindView::Transport(cause)),
            ReplyView::Http { status, body, listing } => if !is_success(status) {
                Err(ErrorKindView::RemoteRejected(status, body))
            } else {
                match listing {
                    Ok(records) => if records.len() == 0 {
                        Ok(None)
                    } else {
                        Ok(Some(records[0]))
                    },
                    Err(cause) => Err(ErrorKindView::Transport(cause)),
                }
            },
        }
    }

    /// What a change learns from this reply: that it was accepted, or why not.
    pub open spec fn ack(self) -> Result<(), ErrorKindView> {
        match self {
            ReplyView::Transport(cause) => Err(ErrorKindView::Transport(cause)),
            ReplyView::Http { status, body, listing } => if is_success(status) {
                Ok(())
            } else {
                Err(ErrorKindView::RemoteRejected(status, body))
            },
        }
    }
}

/// Whether a status accepts the request.
pub fn status_accepts(status: u16) -> (b: bool)
    ensures
        b == is_success(status),
{
    200 <= status && status < 300
}

impl Reply {
    /// Reads this reply as the answer to a lookup.
    pub fn into_lookup(self) -> (r: Result<Option<Record>, ErrorKind>)
        ensures
            match self@.lookup() {
                Ok(Some(found)) => r matches Ok(Some(x)) && x@ == found,
                Ok(None) => r matches Ok(None),
                Err(e) => r matches Err(x) && x@ == e,
            },
    {
        match self {
            Reply::Transport(cause) => Err(ErrorKind::Transport(cause)),
            Reply::Http { status, body, listing } => {
                if !status_accepts(status) {
                    Err(ErrorKind::RemoteRejected(status, body))
                } else {
                    match listing {
                        Ok(records) => {
                            if records.result.len() == 0 {
                                Ok(None)
                            } else {
                                let first = &records.result[0];
                                Ok(
                                    Some(
                                        Record {
                                            id: first.id.clone(),
                                            content: first.content.clone(),
                                        },
                                    ),
                                )
                            }
                        },
                        Err(cause) => Err(ErrorKind::Transport(cause)),
                    }
                }
            },
        }
    }

    /// Reads this reply as the answer to a change.
    pub fn into_ack(self) -> (r: Result<(), ErrorKind>)
        ensures
            match self@.ack() {
                Ok(_) => r is Ok,
                Err(e) => r matches Err(x) && x@ == e,
            },
    {
        match self {
            Reply::Transport(cause) => Err(ErrorKind::Transport(cause)),
            Reply::Http { status, body, listing } => {
                if status_accepts(status) {
                    Ok(())
                } else {
                    Err(ErrorKind::RemoteRejected(status, body))
                }
            },
        }
    }
}

/// What an operation is for.
#[derive(Debug, Clone, Copy, PartialEq, Eq, Structural)]
pub enum Intent {
    /// Report one record of the subdomain.
    Read,
    /// Report whether the subdomain has a base record.
    Probe,
    /// Make both records of a subdomain that has none.
    Create,
    /// Point both records of the subdomain at a new address.
    Update,
    /// Remove both records of the subdomain.
    Delete,
}

/// The exchange that an operation is waiting for.
#[derive(Debug, Clone, Copy, PartialEq, Eq, Structural)]
pub enum Phase {
    LookupBase,
    WriteBase,
    LookupWildcard,
    WriteWildcard,
}

/// An operation under way: what it is for, on which subdomain, with which address,
/// and the exchange it is waiting for.
#[derive(Debug, PartialEq, Eq)]
pub struct Job {
    intent: Intent,
    phase: Phase,
    subdomain: String,
    ip: String,
}

/// `Job` with its texts as sequences of characters.
pub struct JobView {
    pub intent: Intent,
    pub phase: Phase,
    pub subdomain: Seq<char>,
    pub ip: Seq<char>,
}

impl JobView {
    /// The phases that an operation of each kind passes through. A read waits for one
    /// lookup, of either record; a probe for the lookup of the base record; a creation
    /// never looks the wildcard record up.
    pub open spec fn wf(self) -> bool {
        match self.intent {
            Intent::Read => self.phase is LookupBase || self.phase is LookupWildcard,
            Intent::Probe => self.phase is LookupBase,
            Intent::Create => !(self.phase is LookupWildcard),
            Intent::Update | Intent::Delete => true,
        }
    }
}

impl View for Job {
    type V = JobView;

    closed spec fn view(&self) -> JobView {
        JobView {
            intent: self.intent,
            phase: self.phase,
            subdomain: self.subdomain@,
            ip: self.ip@,
        }
    }
}

impl Job {
    #[verifier::type_invariant]
    spec fn inv(self) -> bool {
        self@.wf()
    }

    /// What this operation is for.
    pub fn intent(&self) -> (i: Intent)
        ensures
            i == self@.intent,
    {
        self.intent
    }

    /// The exchange that this operation is waiting for: one that an operation of its
    /// kind passes through.
    pub fn phase(&self) -> (p: Phase)
        ensures
            p == self@.phase,
            self@.wf(),
    {
        proof {
            use_type_invariant(self);
        }
        self.phase
    }
}

/// How an operation ended.
#[derive(Debug, Clone, PartialEq, Eq)]
pub enum Outcome {
    /// The record read: its address and the identifier the provider gave it.
    Found { content: String, id: String },
    /// Whether the subdomain has a base record.
    Exists(bool),
    /// Both records were written.
    Applied,
    /// The operation failed before the provider accepted any change of it.
    Failed(ErrorKind),
    /// The change of the base record was accepted and stands; the wildcard record
    /// was not changed, for this reason. Nothing is rolled back.
    PartiallyApplied(ErrorKind),
}

/// `Outcome` with its texts as sequences of characters.
pub enum OutcomeView {
    Found { content: Seq<char>, id: Seq<char> },
    Exists(bool),
    Applied,
    Failed(ErrorKindView),
    PartiallyApplied(ErrorKindView),
}

impl View for Outcome {
    type V = OutcomeView;

    open spec fn view(&self) -> OutcomeView {
        match *self {
            Outcome::Found { content, id } => OutcomeView::Found { content: content@, id: id@ },
            Outcome::Exists(b) => OutcomeView::Exists(b),
            Outcome::Applied => OutcomeView::Applied,
            Outcome::Failed(e) => OutcomeView::Failed(e@),
            Outcome::PartiallyApplied(e) => OutcomeView::PartiallyApplied(e@),
        }
    }
}

/// What is to happen next in an operation.
#[derive(Debug, PartialEq, Eq)]
pub enum Step {
    /// Carry this command out and resume the job with the reply.
    Ask(Job, Command),
    /// The operation has ended.
    Done(Outcome),
}

/// `Step` with its texts as sequences of characters.
pub enum StepView {
    Ask(JobView, CommandView),
    Done(OutcomeView),
}

impl View for Step {
    type V = StepView;

    open spec fn view(&self) -> StepView {
        match *self {
            Step::Ask(job, command) => StepView::Ask(job@, command@),
            Step::Done(outcome) => StepView::Done(outcome@),
        }
    }
}

/// The name of the base record of a subdomain: `{subdomain}.{suffix}`.
pub open spec fn base_name(subdomain: Seq<char>, suffix: Seq<char>) -> Seq<char> {
    subdomain + "."@ + suffix
}

/// The name of the wildcard record of a subdomain: `*.{subdomain}.{suffix}`.
pub open spec fn wildcard_name(subdomain: Seq<char>, suffix: Seq<char>) -> Seq<char> {
    "*."@ + subdomain + "."@ + suffix
}

/// The record that points `name` at `ip`: an address record, with the provider's
/// automatic time to live, served through the provider's proxy.
pub open spec fn address_record(name: Seq<char>, ip: Seq<char>) -> DnsRecordView {
    DnsRecordView { record_type: "A"@, name: name, ttl: 1, content: ip, proxied: true }
}

/// The engine: the zone it works on and the credential it presents.
#[derive(Debug, Clone, PartialEq, Eq)]
pub struct Cloudflare {
    config: Config,
}

/// What `Cloudflare` reads of its settings.
pub struct CloudflareView {
    pub zone_id: Seq<char>,
    pub api_key: Seq<char>,
    pub dns_suffix: Seq<char>,
}

impl View for Cloudflare {
    type V = CloudflareView;

    closed spec fn view(&self) -> CloudflareView {
        CloudflareView {
            zone_id: self.config.cf_zone_id@,
            api_key: self.config.cf_api_key@,
            dns_suffix: self.config.dns_suffix@,
        }
    }
}

impl CloudflareView {
    /// The address of the zone's records.
    pub open spec fn records_url(self) -> Seq<char> {
        "https://api.cloudflare.com/client/v4/zones/"@ + self.zone_id + "/dns_records"@
    }

    /// The request that carries a command out.
    pub open spec fn request(self, command: CommandView) -> RequestView {
        match command {
            CommandView::Lookup(name) => RequestView {
                method: Method::Get,
                url: self.records_url() + "?type=A&name="@ + name,
                bearer: self.api_key,
                body: None,
            },
            CommandView::Create(record) => RequestView {
                method: Method::Post,
                url: self.records_url(),
                bearer: self.api_key,
                body: Some(record.wire()),
            },
            CommandView::Replace(id, record) => RequestView {
                method: Method::Put,
                url: self.records_url() + "/"@ + id,
                bearer: self.api_key,
                body: Some(record.wire()),
            },
            CommandView::Remove(id) => RequestView {
                method: Method::Delete,
                url: self.records_url() + "/"@ + id,
                bearer: self.api_key,
                body: None,
            },
        }
    }

    /// The headers that every request carries.
    pub open spec fn default_headers(self) -> Seq<(Seq<char>, Seq<char>)> {
        seq![
            ("Content-Type"@, "application/json"@),
            ("Authorization"@, "Bearer "@ + self.api_key),
        ]
    }

    /// The first step of an operation: the lookup of the record that it starts from.
    pub open spec fn begin(self, intent: Intent, wildcard: bool, subdomain: Seq<char>, ip: Seq<
        char,
    >) -> StepView {
        if wildcard {
            StepView::Ask(
                JobView { intent, phase: Phase::LookupWildcard, subdomain, ip },
                CommandView::Lookup(wildcard_name(subdomain, self.dns_suffix)),
            )
        } else {
            StepView::Ask(
                JobView { intent, phase: Phase::LookupBase, subdomain, ip },
                CommandView::Lookup(base_name(subdomain, self.dns_suffix)),
            )
        }
    }

    /// The step after the lookup of the base record.
    ///
    /// A lookup that failed ends every operation, with its error. A read reports the
    /// record, a probe whether there is one. A creation goes on only where there is
    /// none, an update and a removal only where there is one, which they then change
    /// by the identifier just learnt.
    pub open spec fn after_base_lookup(self, job: JobView, found: Result<
        Option<RecordView>,
        ErrorKindView,
    >) -> StepView {
        let name = base_name(job.subdomain, self.dns_suffix);
        let then = JobView { phase: Phase::WriteBase, ..job };
        match found {
            Err(e) => StepView::Done(OutcomeView::Failed(e)),
            Ok(None) => match job.intent {
                Intent::Probe => StepView::Done(OutcomeView::Exists(false)),
                Intent::Create => StepView::Ask(
                    then,
                    CommandView::Create(address_record(name, job.ip)),
                ),
                _ => StepView::Done(OutcomeView::Failed(ErrorKindView::NotFound)),
            },
            Ok(Some(record)) => match job.intent {
                Intent::Read => StepView::Done(
                    OutcomeView::Found { content: record.content, id: record.id },
                ),
                Intent::Probe => StepView::Done(OutcomeView::Exists(true)),
                Intent::Create => StepView::Done(OutcomeView::Failed(ErrorKindView::AlreadyExists)),
                Intent::Update => StepView::Ask(
                    then,
                    CommandView::Replace(record.id, address_record(name, job.ip)),
                ),
                Intent::Delete => StepView::Ask(then, CommandView::Remove(record.id)),
            },
        }
    }

    /// The step after the change of the base record.
    ///
    /// A change that was not accepted ends the operation: the wildcard record is not
    /// attempted. After an accepted one a creation makes the wildcard record, and an
    /// update and a removal look it up.
    pub open spec fn after_base_write(self, job: JobView, ack: Result<(), ErrorKindView>)
        -> StepView {
        let name = wildcard_name(job.subdomain, self.dns_suffix);
        match ack {
            Err(e) => StepView::Done(OutcomeView::Failed(e)),
            Ok(_) => match job.intent {
                Intent::Create => StepView::Ask(
                    JobView { phase: Phase::WriteWildcard, ..job },
                    CommandView::Create(address_record(name, job.ip)),
                ),
                _ => StepView::Ask(
                    JobView { phase: Phase::LookupWildcard, ..job },
                    CommandView::Lookup(name),
                ),
            },
        }
    }

    /// The step after the lookup of the wildcard record.
    ///
    /// For a read this is the only exchange. For an update and a removal the base
    /// record is changed by now, so whatever stops them here leaves the pair out of
    /// step: a failed lookup, or no wildcard record to change.
    pub open spec fn after_wildcard_lookup(self, job: JobView, found: Result<
        Option<RecordView>,
        ErrorKindView,
    >) -> StepView {
        let name = wildcard_name(job.subdomain, self.dns_suffix);
        let then = JobView { phase: Phase::WriteWildcard, ..job };
        let missed = match found {
            Err(e) => e,
            _ => ErrorKindView::NotFound,
        };
        match found {
            Ok(Some(record)) => match job.intent {
                Intent::Update => StepView::Ask(
                    then,
                    CommandView::Replace(record.id, address_record(name, job.ip)),
                ),
                Intent::Delete => StepView::Ask(then, CommandView::Remove(record.id)),
                _ => StepView::Done(
                    OutcomeView::Found { content: record.content, id: record.id },
                ),
            },
            _ => match job.intent {
                Intent::Update | Intent::Delete => StepView::Done(
                    OutcomeView::PartiallyApplied(missed),
                ),
                _ => StepView::Done(OutcomeView::Failed(missed)),
            },
        }
    }

    /// The step after the change of the wildcard record, which ends the operation.
    pub open spec fn after_wildcard_write(self, ack: Result<(), ErrorKindView>) -> StepView {
        match ack {
            Ok(_) => StepView::Done(OutcomeView::Applied),
            Err(e) => StepView::Done(OutcomeView::PartiallyApplied(e)),
        }
    }

    /// The step that follows when `reply` answers the command that `job` waits for.
    pub open spec fn next(self, job: JobView, reply: ReplyView) -> StepView {
        match job.phase {
            Phase::LookupBase => self.after_base_lookup(job, reply.lookup()),
            Phase::WriteBase => self.after_base_write(job, reply.ack()),
            Phase::LookupWildcard => self.after_wildcard_lookup(job, reply.lookup()),
            Phase::WriteWildcard => self.after_wildcard_write(reply.ack()),
        }
    }
}

impl Cloudflare {
    /// An engine for the zone and with the credential that `config` names.
    pub fn new(config: Config) -> (cf: Self)
        ensures
            cf@ == (CloudflareView {
                zone_id: config.cf_zone_id@,
                api_key: config.cf_api_key@,
                dns_suffix: config.dns_suffix@,
            }),
    {
        Cloudflare { config }
    }

    /// The headers that every request carries: the content type, and the credential
    /// as a bearer token.
    pub fn default_headers(&self) -> (headers: Vec<(String, String)>)
        ensures
            headers@.len() == 2,
            headers@[0].0@ == "Content-Type"@,
            headers@[0].1@ == "application/json"@,
            headers@[1].0@ == "Authorization"@,
            headers@[1].1@ == "Bearer "@ + self@.api_key,
    {
        let mut headers: Vec<(String, String)> = Vec::new();
        headers.push((String::from_str("Content-Type"), String::from_str("application/json")));
        let mut bearer = String::from_str("Bearer ");
        bearer.append(self.config.cf_api_key.as_str());
        headers.push((String::from_str("Authorization"), bearer));
        headers
    }

    fn records_url(&self) -> (url: String)
        ensures
            url@ == self@.records_url(),
    {
        join3(
            "https://api.cloudflare.com/client/v4/zones/",
            self.config.cf_zone_id.as_str(),
            "/dns_records",
        )
    }

    /// The request that carries `command` out.
    pub fn request(&self, command: &Command) -> (req: Request)
        ensures
            req@ == self@.request(command@),
    {
        let mut url = self.records_url();
        let bearer = self.config.cf_api_key.clone();
        match command {
            Command::Lookup(name) => {
                url.append("?type=A&name=");
                url.append(name.as_str());
                Request { method: Method::Get, url, bearer, body: None }
            },
            Command::Create(record) => {
                Request { method: Method::Post, url, bearer, body: Some(record.to_string()) }
            },
            Command::Replace(id, record) => {
                url.append("/");
                url.append(id.as_str());
                Request { method: Method::Put, url, bearer, body: Some(record.to_string()) }
            },
            Command::Remove(id) => {
                url.append("/");
                url.append(id.as_str());
                Request { method: Method::Delete, url, bearer, body: None }
            },
        }
    }

    fn base_name(&self, subdomain: &String) -> (name: String)
        ensures
            name@ == base_name(subdomain@, self@.dns_suffix),
    {
        join3(subdomain.as_str(), ".", self.config.dns_suffix.as_str())
    }

    fn wildcard_name(&self, subdomain: &String) -> (name: String)
        ensures
            name@ == wildcard_name(subdomain@, self@.dns_suffix),
    {
        let mut name = String::from_str("*.");
        name.append(subdomain.as_str());
        name.append(".");
        name.append(self.config.dns_suffix.as_str());
        name
    }

    fn address_record(name: String, ip: &String) -> (record: DnsRecord)
        ensures
            record@ == address_record(name@, ip@),
    {
        DnsRecord::new(String::from_str("A"), name, 1, ip.clone(), true)
    }

    /// Starts an operation of the kind `intent` on the base record.
    fn begin(&self, intent: Intent, subdomain: &String, ip: &String) -> (step: Step)
        requires
            !(intent is Read),
        ensures
            step@ == self@.begin(intent, false, subdomain@, ip@),
    {
        let name = self.base_name(subdomain);
        let job = Job {
            intent,
            phase: Phase::LookupBase,
            subdomain: subdomain.clone(),
            ip: ip.clone(),
        };
        Step::Ask(job, Command::Lookup(name))
    }

    /// Starts the creation of the two records of `subdomain`, pointing at `ip`.
    ///
    /// The base record is looked up first. The creation goes on only where there is
    /// none: a second creation is refused with `AlreadyExists`, never taken for done.
    /// Then the base record is made, and only when the provider has accepted it the
    /// wildcard record.
    pub fn add_subdomain_dns_record(&self, subdomain: &String, ip: &String) -> (step: Step)
        ensures
            step@ == self@.begin(Intent::Create, false, subdomain@, ip@),
    {
        self.begin(Intent::Create, subdomain, ip)
    }

    /// Starts the reading of one record of `subdomain`: the wildcard record if
    /// `wildcard`, else the base record.
    ///
    /// The operation ends with the address and the identifier of the first record
    /// that the provider lists, or fails with `NotFound` where it lists none.
    pub fn get_subdomain_dns_record(&self, subdomain: &String, wildcard: bool) -> (step: Step)
        ensures
            step@ == self@.begin(Intent::Read, wildcard, subdomain@, Seq::<char>::empty()),
    {
        if wildcard {
            let name = self.wildcard_name(subdomain);
            let job = Job {
                intent: Intent::Read,
                phase: Phase::LookupWildcard,
                subdomain: subdomain.clone(),
                ip: String::new(),
            };
            Step::Ask(job, Command::Lookup(name))
        } else {
            let name = self.base_name(subdomain);
            let job = Job {
                intent: Intent::Read,
                phase: Phase::LookupBase,
                subdomain: subdomain.clone(),
                ip: String::new(),
            };
            Step::Ask(job, Command::Lookup(name))
        }
    }

    /// Starts pointing both records of `subdomain` at `ip`.
    ///
    /// Each record is looked up just before it is replaced, and replaced by the
    /// identifier just learnt; the base record comes first.
    pub fn update_subdomain_dns_record(&self, subdomain: &String, ip: &String) -> (step: Step)
        ensures
            step@ == self@.begin(Intent::Update, false, subdomain@, ip@),
    {
        self.begin(Intent::Update, subdomain, ip)
    }

    /// Starts the removal of both records of `subdomain`, the base record first.
    pub fn delete_subdomain_dns_record(&self, subdomain: &String) -> (step: Step)
        ensures
            step@ == self@.begin(Intent::Delete, false, subdomain@, Seq::<char>::empty()),
    {
        let ip = String::new();
        self.begin(Intent::Delete, subdomain, &ip)
    }

    /// Starts a probe: whether `subdomain` has a base record.
    ///
    /// The answer is what the provider held when it was asked. It saves an exchange
    /// before a creation or a removal and decides nothing: those look up again.
    pub fn check_exists(&self, subdomain: &String) -> (step: Step)
        ensures
            step@ == self@.begin(Intent::Probe, false, subdomain@, Seq::<char>::empty()),
    {
        let ip = String::new();
        self.begin(Intent::Probe, subdomain, &ip)
    }

    fn after_base_lookup(&self, job: Job, reply: Reply) -> (step: Step)
        requires
            job@.phase is LookupBase,
        ensures
            step@ == self@.after_base_lookup(job@, reply@.lookup()),
    {
        proof {
            use_type_invariant(&job);
        }
        match reply.into_lookup() {
            Err(e) => Step::Done(Outcome::Failed(e)),
            Ok(None) => match job.intent {
                Intent::Probe => Step::Done(Outcome::Exists(false)),
                Intent::Create => {
                    let name = self.base_name(&job.subdomain);
                    let record = Self::address_record(name, &job.ip);
                    let then = Job {
                        intent: job.intent,
                        phase: Phase::WriteBase,
                        subdomain: job.subdomain,
                        ip: job.ip,
                    };
                    Step::Ask(then, Command::Create(record))
                },
                _ => Step::Done(Outcome::Failed(ErrorKind::NotFound)),
            },
            Ok(Some(record)) => match job.intent {
                Intent::Read => Step::Done(Outcome::Found { content: record.content, id: record.id }),
                Intent::Probe => Step::Done(Outcome::Exists(true)),
                Intent::Create => Step::Done(Outcome::Failed(ErrorKind::AlreadyExists)),
                Intent::Update => {
                    let name = self.base_name(&job.subdomain);
                    let new_record = Self::address_record(name, &job.ip);
                    let then = Job {
                        intent: job.intent,
                        phase: Phase::WriteBase,
                        subdomain: job.subdomain,
                        ip: job.ip,
                    };
                    Step::Ask(then, Command::Replace(record.id, new_record))
                },
                Intent::Delete => {
                    let then = Job {
                        intent: job.intent,
                        phase: Phase::WriteBase,
                        subdomain: job.subdomain,
                        ip: job.ip,
                    };
                    Step::Ask(then, Command::Remove(record.id))
                },
            },
        }
    }

    fn after_base_write(&self, job: Job, reply: Reply) -> (step: Step)
        requires
            job@.phase is WriteBase,
        ensures
            step@ == self@.after_base_write(job@, reply@.ack()),
    {
        proof {
            use_type_invariant(&job);
        }
        match reply.into_ack() {
            Err(e) => Step::Done(Outcome::Failed(e)),
            Ok(_) => {
                let name = self.wildcard_name(&job.subdomain);
                match job.intent {
                    Intent::Create => {
                        let record = Self::address_record(name, &job.ip);
                        let then = Job {
                            intent: job.intent,
                            phase: Phase::WriteWildcard,
                            subdomain: job.subdomain,
                            ip: job.ip,
                        };
                        Step::Ask(then, Command::Create(record))
                    },
                    Intent::Update | Intent::Delete => {
                        let then = Job {
                            intent: job.intent,
                            phase: Phase::LookupWildcard,
                            subdomain: job.subdomain,
                            ip: job.ip,
                        };
                        Step::Ask(then, Command::Lookup(name))
                    },
                    _ => unreached(),
                }
            },
        }
    }

    fn after_wildcard_lookup(&self, job: Job, reply: Reply) -> (step: Step)
        requires
            job@.phase is LookupWildcard,
        ensures
            step@ == self@.after_wildcard_lookup(job@, reply@.lookup()),
    {
        proof {
            use_type_invariant(&job);
        }
        match reply.into_lookup() {
            Ok(Some(record)) => match job.intent {
                Intent::Update => {
                    let name = self.wildcard_name(&job.subdomain);
                    let new_record = Self::address_record(name, &job.ip);
                    let then = Job {
                        intent: job.intent,
                        phase: Phase::WriteWildcard,
                        subdomain: job.subdomain,
                        ip: job.ip,
                    };
                    Step::Ask(then, Command::Replace(record.id, new_record))
                },
                Intent::Delete => {
                    let then = Job {
                        intent: job.intent,
                        phase: Phase::WriteWildcard,
                        subdomain: job.subdomain,
                        ip: job.ip,
                    };
                    Step::Ask(then, Command::Remove(record.id))
                },
                _ => Step::Done(Outcome::Found { content: record.content, id: record.id }),
            },
            Ok(None) => match job.intent {
                Intent::Update | Intent::Delete => Step::Done(
                    Outcome::PartiallyApplied(ErrorKind::NotFound),
                ),
                _ => Step::Done(Outcome::Failed(ErrorKind::NotFound)),
            },
            Err(e) => match job.intent {
                Intent::Update | Intent::Delete => Step::Done(Outcome::PartiallyApplied(e)),
                _ => Step::Done(Outcome::Failed(e)),
            },
        }
    }

    fn after_wildcard_write(&self, reply: Reply) -> (step: Step)
        ensures
            step@ == self@.after_wildcard_write(reply@.ack()),
    {
        match reply.into_ack() {
            Ok(_) => Step::Done(Outcome::Applied),
            Err(e) => Step::Done(Outcome::PartiallyApplied(e)),
        }
    }

    /// Advances `job` by the reply to the command that it was waiting for.
    pub fn resume(&self, job: Job, reply: Reply) -> (step: Step)
        ensures
            step@ == self@.next(job@, reply@),
    {
        match job.phase {
            Phase::LookupBase => self.after_base_lookup(job, reply),
            Phase::WriteBase => self.after_base_write(job, reply),
            Phase::LookupWildcard => self.after_wildcard_lookup(job, reply),
            Phase::WriteWildcard => self.after_wildcard_write(reply),
        }
    }
}

} // verus!
