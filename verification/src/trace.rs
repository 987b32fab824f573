//! What an operation comes to, whatever the provider answers.
//!
//! An operation is followed here through any replies at all: refusals, failures of
//! the network and listings of any content. What is stated holds of every run of
//! the engine.

use crate::cloudflare::{CloudflareView, Intent, OutcomeView, ReplyView, StepView};
use vstd::prelude::*;

verus! {

/// The outcome of the operation that begins with `step` when its commands are
/// answered by `replies`, in their order; nothing where the operation has not ended
/// when the replies run out, or ends before they do.
pub open spec fn outcome_after(cf: CloudflareView, step: StepView, replies: Seq<ReplyView>)
    -> Option<OutcomeView>
    decreases replies.len(),
{
    match step {
        StepView::Done(outcome) => if replies.len() == 0 {
            Some(outcome)
        } else {
            None
        },
        StepView::Ask(job, _) => if replies.len() == 0 {
            None
        } else {
            outcome_after(cf, cf.next(job, replies[0]), replies.drop_first())
        },
    }
}

/// The first step of an operation of the kind `intent`. Only a read begins at the
/// wildcard record.
pub open spec fn start(
    cf: CloudflareView,
    intent: Intent,
    wildcard: bool,
    subdomain: Seq<char>,
    ip: Seq<char>,
) -> StepView {
    cf.begin(intent, wildcard && intent is Read, subdomain, ip)
}

/// A read takes one exchange and ends with the record or with a failure; a probe
/// takes one exchange and ends with its answer or with a failure.
pub proof fn law_queries_take_one_exchange(
    cf: CloudflareView,
    intent: Intent,
    wildcard: bool,
    subdomain: Seq<char>,
    ip: Seq<char>,
    replies: Seq<ReplyView>,
)
    requires
        intent is Read || intent is Probe,
        outcome_after(cf, start(cf, intent, wildcard, subdomain, ip), replies) is Some,
    ensures
        replies.len() == 1,
        ({
            let outcome = outcome_after(
                cf,
                start(cf, intent, wildcard, subdomain, ip),
                replies,
            )->0;
            if intent is Read {
                outcome is Found || outcome is Failed
            } else {
                outcome is Exists || outcome is Failed
            }
        }),
{
    reveal_with_fuel(outcome_after, 3);
}

/// How a change of the two records of a subdomain ends, and what the end says of
/// what the provider accepted.
///
/// A creation, an update and a removal take four exchanges at most: the base record
/// is looked up and changed, then the wildcard record. The outcome is `Failed` only
/// where the change of the base record was not accepted, or not even asked for: the
/// provider holds what it held. It is `PartiallyApplied` only where the change of the
/// base record was accepted and what followed was not: the wildcard record is as it
/// was, and nothing is undone. It is `Applied` only where both changes were accepted.
pub proof fn law_partial_failure(
    cf: CloudflareView,
    intent: Intent,
    subdomain: Seq<char>,
    ip: Seq<char>,
    replies: Seq<ReplyView>,
)
    requires
        intent is Create || intent is Update || intent is Delete,
        outcome_after(cf, start(cf, intent, false, subdomain, ip), replies) is Some,
    ensures
        1 <= replies.len() <= 4,
        ({
            let outcome = outcome_after(cf, start(cf, intent, false, subdomain, ip), replies)->0;
            let last = replies.len() - 1;
            &&& outcome is Failed || outcome is PartiallyApplied || outcome is Applied
            &&& outcome is Failed ==> replies.len() <= 2 && (replies.len() == 2
                ==> replies[1].ack() is Err)
            &&& outcome is PartiallyApplied ==> replies.len() >= 3 && replies[1].ack() is Ok && (
            replies.len() == 4 || intent is Create ==> replies[last].ack() is Err)
            &&& outcome is Applied ==> replies[1].ack() is Ok && replies[last].ack() is Ok && (
            if intent is Create {
                replies.len() == 3
            } else {
                replies.len() == 4
            })
        }),
{
    reveal_with_fuel(outcome_after, 6);
    let first = start(cf, intent, false, subdomain, ip);
    assert(replies.len() >= 1);
    let r1 = replies.drop_first();
    if r1.len() > 0 {
        assert(r1[0] == replies[1]);
        let r2 = r1.drop_first();
        if r2.len() > 0 {
            assert(r2[0] == replies[2]);
            let r3 = r2.drop_first();
            if r3.len() > 0 {
                assert(r3[0] == replies[3]);
                let r4 = r3.drop_first();
                assert(r4.len() == 0);
            }
        }
    }
}

} // verus!
