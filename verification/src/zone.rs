//! What the operations of the engine achieve, stated against a model of the provider.
//!
//! The model is a provider that is always reached, holds at most one address record
//! under a name, gives every record it makes an identifier of its own, and accepts
//! every change but these: a record under a name that is taken, and a change of a
//! record that it does not hold. `run` drives an operation against it to the end.

use crate::cloudflare::{
    address_record, base_name, wildcard_name, CloudflareView, CommandView, Intent, JobView,
    OutcomeView, Phase, ReplyView, StepView,
};
use crate::errors::ErrorKindView;
use crate::models::RecordView;
use vstd::prelude::*;

verus! {

/// What the provider holds under a name: the identifier it gave, and the address.
pub struct Entry {
    pub id: Seq<char>,
    pub content: Seq<char>,
}

/// The address records of a zone, by name, and how many identifiers the provider has
/// given out so far.
pub struct Zone {
    pub entries: Map<Seq<char>, Entry>,
    pub issued: nat,
}

impl Zone {
    /// No two records share an identifier, and every identifier is one that was given
    /// out: the identifiers are told apart by their length, which stands for
    /// whatever the provider tells its own apart by.
    pub open spec fn wf(self) -> bool {
        &&& forall|n: Seq<char>| #[trigger]
            self.entries.contains_key(n) ==> self.entries[n].id.len() < self.issued
        &&& forall|id: Seq<char>, n: Seq<char>, m: Seq<char>|
            #[trigger] self.holds(id, n) && #[trigger] self.holds(id, m) ==> n == m
    }

    /// The record under `name` has the identifier `id`.
    pub open spec fn holds(self, id: Seq<char>, name: Seq<char>) -> bool {
        self.entries.contains_key(name) && self.entries[name].id == id
    }

    /// The name of the record with the identifier `id`, if there is one.
    pub open spec fn holder(self, id: Seq<char>) -> Option<Seq<char>> {
        if exists|n: Seq<char>| self.holds(id, n) {
            Some(choose|n: Seq<char>| self.holds(id, n))
        } else {
            None
        }
    }

    /// The identifier that the next record gets.
    pub open spec fn fresh_id(self) -> Seq<char> {
        Seq::new(self.issued, |i: int| '0')
    }

    /// The subdomain has a base record.
    pub open spec fn has_base(self, cf: CloudflareView, subdomain: Seq<char>) -> bool {
        self.entries.contains_key(base_name(subdomain, cf.dns_suffix))
    }

    /// The subdomain has a wildcard record.
    pub open spec fn has_wildcard(self, cf: CloudflareView, subdomain: Seq<char>) -> bool {
        self.entries.contains_key(wildcard_name(subdomain, cf.dns_suffix))
    }

    /// The answer to a change that was made.
    pub open spec fn accepted() -> ReplyView {
        ReplyView::Http { status: 200, body: Seq::empty(), listing: Err(Seq::empty()) }
    }

    /// The answer to a change that was refused.
    pub open spec fn refused(status: u16) -> ReplyView {
        ReplyView::Http { status: status, body: Seq::empty(), listing: Err(Seq::empty()) }
    }

    /// The answer to a query for `name`.
    pub open spec fn listing(self, name: Seq<char>) -> ReplyView {
        ReplyView::Http {
            status: 200,
            body: Seq::empty(),
            listing: Ok(
                if self.entries.contains_key(name) {
                    seq![
                        RecordView {
                            id: self.entries[name].id,
                            content: self.entries[name].content,
                        },
                    ]
                } else {
                    Seq::empty()
                },
            ),
        }
    }

    /// The zone with a record put under `name`.
    pub open spec fn with(self, name: Seq<char>, id: Seq<char>, content: Seq<char>) -> Zone {
        Zone { entries: self.entries.insert(name, Entry { id, content }), issued: self.issued }
    }

    /// The zone without the record under `name`.
    pub open spec fn without(self, name: Seq<char>) -> Zone {
        Zone { entries: self.entries.remove(name), issued: self.issued }
    }

    /// The zone after the provider has carried `command` out, and its answer.
    pub open spec fn serve(self, command: CommandView) -> (Zone, ReplyView) {
        match command {
            CommandView::Lookup(name) => (self, self.listing(name)),
            CommandView::Create(record) => if self.entries.contains_key(record.name) {
                (self, Self::refused(400))
            } else {
                (
                    Zone {
                        entries: self.entries.insert(
                            record.name,
                            Entry { id: self.fresh_id(), content: record.content },
                        ),
                        issued: self.issued + 1,
                    },
                    Self::accepted(),
                )
            },
            CommandView::Replace(id, record) => match self.holder(id) {
                None => (self, Self::refused(404)),
                Some(name) => if record.name == name {
                    (self.with(name, id, record.content), Self::accepted())
                } else if self.entries.contains_key(record.name) {
                    (self, Self::refused(400))
                } else {
                    (self.without(name).with(record.name, id, record.content), Self::accepted())
                },
            },
            CommandView::Remove(id) => match self.holder(id) {
                None => (self, Self::refused(404)),
                Some(name) => (self.without(name), Self::accepted()),
            },
        }
    }
}

/// How many exchanges an operation may still take.
pub open spec fn exchanges_left(step: StepView) -> nat {
    match step {
        StepView::Done(_) => 0,
        StepView::Ask(job, _) => match job.phase {
            Phase::LookupBase => 4,
            Phase::WriteBase => 3,
            Phase::LookupWildcard => 2,
            Phase::WriteWildcard => 1,
        },
    }
}

/// Every reply brings an operation nearer to its end: it takes four exchanges at
/// most, and those on the base record come before those on the wildcard record.
pub proof fn law_progress(cf: CloudflareView, job: JobView, command: CommandView, reply: ReplyView)
    ensures
        exchanges_left(cf.next(job, reply)) < exchanges_left(StepView::Ask(job, command)),
{
}

/// The zone and the outcome when `step` and all that follows it is carried out by the
/// provider.
pub open spec fn run(cf: CloudflareView, zone: Zone, step: StepView) -> (Zone, OutcomeView)
    decreases exchanges_left(step),
{
    match step {
        StepView::Done(outcome) => (zone, outcome),
        StepView::Ask(job, command) => {
            let (after, reply) = zone.serve(command);
            run(cf, after, cf.next(job, reply))
        },
    }
}

/// In a well-formed zone an identifier names the one record that has it.
pub proof fn lemma_holder(zone: Zone, id: Seq<char>, name: Seq<char>)
    requires
        zone.wf(),
        zone.holds(id, name),
    ensures
        zone.holder(id) == Some(name),
{
    let n = choose|n: Seq<char>| zone.holds(id, n);
    assert(zone.holds(id, n));
}

/// The two records of a subdomain have different names.
pub proof fn lemma_names_differ(subdomain: Seq<char>, suffix: Seq<char>)
    ensures
        base_name(subdomain, suffix) != wildcard_name(subdomain, suffix),
{
    reveal_strlit("*.");
    reveal_strlit(".");
    assert(wildcard_name(subdomain, suffix).len() == base_name(subdomain, suffix).len() + 2);
}

/// Whatever it is asked, the provider keeps its zone well-formed.
pub proof fn lemma_serve_wf(zone: Zone, command: CommandView)
    requires
        zone.wf(),
    ensures
        zone.serve(command).0.wf(),
{
    let after = zone.serve(command).0;
    match command {
        CommandView::Lookup(name) => {},
        CommandView::Create(record) => {
            if !zone.entries.contains_key(record.name) {
                assert forall|id: Seq<char>, n: Seq<char>, m: Seq<char>|
                    #[trigger] after.holds(id, n) && #[trigger] after.holds(id, m) implies n
                    == m by {
                    if n != record.name && m != record.name {
                        assert(zone.holds(id, n) && zone.holds(id, m));
                    }
                }
            }
        },
        CommandView::Replace(id, record) => {
            match zone.holder(id) {
                None => {},
                Some(name) => {
                    assert(zone.holds(id, name));
                    assert forall|i: Seq<char>, n: Seq<char>, m: Seq<char>|
                        #[trigger] after.holds(i, n) && #[trigger] after.holds(i, m) implies n
                        == m by {
                        if after != zone {
                            let target = record.name;
                            if n == target && m != target {
                                assert(zone.holds(id, m));
                            } else if m == target && n != target {
                                assert(zone.holds(id, n));
                            } else if n != target && m != target {
                                assert(zone.holds(i, n) && zone.holds(i, m));
                            }
                        }
                    }
                },
            }
        },
        CommandView::Remove(id) => {
            match zone.holder(id) {
                None => {},
                Some(name) => {
                    assert forall|i: Seq<char>, n: Seq<char>, m: Seq<char>|
                        #[trigger] after.holds(i, n) && #[trigger] after.holds(i, m) implies n
                        == m by {
                        assert(zone.holds(i, n) && zone.holds(i, m));
                    }
                },
            }
        },
    }
}

/// An operation leaves the zone well-formed, however it ends.
pub proof fn law_zone_stays_well_formed(cf: CloudflareView, zone: Zone, step: StepView)
    requires
        zone.wf(),
    ensures
        run(cf, zone, step).0.wf(),
    decreases exchanges_left(step),
{
    match step {
        StepView::Done(_) => {},
        StepView::Ask(job, command) => {
            let (after, reply) = zone.serve(command);
            lemma_serve_wf(zone, command);
            law_zone_stays_well_formed(cf, after, cf.next(job, reply));
        },
    }
}

/// An operation that fails has changed nothing: the provider accepted no change of
/// it. Nor does a read or a probe change anything.
pub proof fn law_failure_changes_nothing(
    cf: CloudflareView,
    zone: Zone,
    intent: Intent,
    wildcard: bool,
    subdomain: Seq<char>,
    ip: Seq<char>,
)
    ensures
        ({
            let (after, outcome) = run(cf, zone, cf.begin(intent, wildcard, subdomain, ip));
            outcome is Found || outcome is Exists || outcome is Failed ==> after == zone
        }),
{
    reveal_with_fuel(run, 5);
}

/// Creating a subdomain that has no base record, then reading it, gives the address
/// it was created with. Where it had no wildcard record either, both records are
/// made, and the wildcard record reads the same.
pub proof fn law_create_then_read(
    cf: CloudflareView,
    zone: Zone,
    subdomain: Seq<char>,
    ip: Seq<char>,
)
    requires
        zone.wf(),
        !zone.has_base(cf, subdomain),
    ensures
        ({
            let (created, outcome) = run(cf, zone, cf.begin(Intent::Create, false, subdomain, ip));
            let read = run(cf, created, cf.begin(Intent::Read, false, subdomain, Seq::empty())).1;
            let read_wildcard = run(
                cf,
                created,
                cf.begin(Intent::Read, true, subdomain, Seq::empty()),
            ).1;
            &&& read matches OutcomeView::Found { content, id } && content == ip
            &&& outcome is Applied || outcome is PartiallyApplied
            &&& !zone.has_wildcard(cf, subdomain) ==> {
                &&& outcome is Applied
                &&& read_wildcard matches OutcomeView::Found { content, id } && content == ip
            }
        }),
{
    reveal_with_fuel(run, 5);
    lemma_names_differ(subdomain, cf.dns_suffix);
    let base = base_name(subdomain, cf.dns_suffix);
    let wildcard = wildcard_name(subdomain, cf.dns_suffix);
    let with_base = zone.serve(CommandView::Create(address_record(base, ip))).0;
    assert(with_base.entries.contains_key(base));
    assert(with_base.entries[base].content == ip);
    assert(zone.listing(base).lookup() == Ok::<Option<RecordView>, ErrorKindView>(None));
}

/// Creating a subdomain that has a base record fails with `AlreadyExists` and changes
/// nothing: no record is made and none is altered.
pub proof fn law_create_existing(cf: CloudflareView, zone: Zone, subdomain: Seq<char>, ip: Seq<char>)
    requires
        zone.has_base(cf, subdomain),
    ensures
        run(cf, zone, cf.begin(Intent::Create, false, subdomain, ip)) == (
            zone,
            OutcomeView::Failed(ErrorKindView::AlreadyExists),
        ),
{
    reveal_with_fuel(run, 5);
    let base = base_name(subdomain, cf.dns_suffix);
    assert(zone.listing(base).lookup() is Ok);
}

/// Updating a subdomain that has a base record, then reading it, gives the new
/// address. Where it has a wildcard record too, the update succeeds and the wildcard
/// record reads the new address as well; where it has none, the update is applied in
/// part: the base record is changed and stays changed.
pub proof fn law_update_then_read(
    cf: CloudflareView,
    zone: Zone,
    subdomain: Seq<char>,
    ip: Seq<char>,
)
    requires
        zone.wf(),
        zone.has_base(cf, subdomain),
    ensures
        ({
            let (updated, outcome) = run(cf, zone, cf.begin(Intent::Update, false, subdomain, ip));
            let read = run(cf, updated, cf.begin(Intent::Read, false, subdomain, Seq::empty())).1;
            let read_wildcard = run(
                cf,
                updated,
                cf.begin(Intent::Read, true, subdomain, Seq::empty()),
            ).1;
            &&& read matches OutcomeView::Found { content, id } && content == ip
            &&& zone.has_wildcard(cf, subdomain) ==> {
                &&& outcome is Applied
                &&& read_wildcard matches OutcomeView::Found { content, id } && content == ip
            }
            &&& !zone.has_wildcard(cf, subdomain) ==> outcome == OutcomeView::PartiallyApplied(
                ErrorKindView::NotFound,
            )
        }),
{
    reveal_with_fuel(run, 5);
    lemma_names_differ(subdomain, cf.dns_suffix);
    let base = base_name(subdomain, cf.dns_suffix);
    let wildcard = wildcard_name(subdomain, cf.dns_suffix);
    let base_id = zone.entries[base].id;
    assert(zone.holds(base_id, base));
    lemma_holder(zone, base_id, base);
    let mid = zone.with(base, base_id, ip);
    lemma_serve_wf(zone, CommandView::Replace(base_id, address_record(base, ip)));
    assert(zone.serve(CommandView::Replace(base_id, address_record(base, ip))).0 == mid);
    assert(mid.entries[base].content == ip);
    if zone.has_wildcard(cf, subdomain) {
        let wildcard_id = mid.entries[wildcard].id;
        assert(mid.holds(wildcard_id, wildcard));
        lemma_holder(mid, wildcard_id, wildcard);
    }
}

/// Removing a subdomain that has a base record leaves nothing to read, and nothing
/// for a second removal: both fail with `NotFound`. A removal is not taken for done
/// because there is nothing left to remove.
pub proof fn law_delete_then_read(cf: CloudflareView, zone: Zone, subdomain: Seq<char>)
    requires
        zone.wf(),
        zone.has_base(cf, subdomain),
    ensures
        ({
            let gone = OutcomeView::Failed(ErrorKindView::NotFound);
            let (deleted, outcome) = run(
                cf,
                zone,
                cf.begin(Intent::Delete, false, subdomain, Seq::empty()),
            );
            &&& zone.has_wildcard(cf, subdomain) ==> outcome is Applied
            &&& !zone.has_wildcard(cf, subdomain) ==> outcome == OutcomeView::PartiallyApplied(
                ErrorKindView::NotFound,
            )
            &&& run(cf, deleted, cf.begin(Intent::Read, false, subdomain, Seq::empty())).1 == gone
            &&& run(cf, deleted, cf.begin(Intent::Read, true, subdomain, Seq::empty())).1 == gone
            &&& run(cf, deleted, cf.begin(Intent::Delete, false, subdomain, Seq::empty())) == (
                deleted,
                gone,
            )
        }),
{
    reveal_with_fuel(run, 5);
    lemma_names_differ(subdomain, cf.dns_suffix);
    let base = base_name(subdomain, cf.dns_suffix);
    let wildcard = wildcard_name(subdomain, cf.dns_suffix);
    let base_id = zone.entries[base].id;
    assert(zone.holds(base_id, base));
    lemma_holder(zone, base_id, base);
    let mid = zone.without(base);
    lemma_serve_wf(zone, CommandView::Remove(base_id));
    assert(zone.serve(CommandView::Remove(base_id)).0 == mid);
    if zone.has_wildcard(cf, subdomain) {
        let wildcard_id = mid.entries[wildcard].id;
        assert(mid.holds(wildcard_id, wildcard));
        lemma_holder(mid, wildcard_id, wildcard);
    }
}

} // verus!
