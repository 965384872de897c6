//! The dispatcher loop: runs only on the thread that owns the host runtime,
//! drains the relay channel, runs each host call, and writes the result into
//! the requesting slot.
//!
//! The host call itself belongs to the host runtime's binding layer; here it
//! appears as a function value.  Nothing is assumed of it beyond its own
//! contract: the loop's guarantee holds for whatever the host returns, and a
//! host that raises an error fails exactly the branch that asked.  A host
//! call that itself needed another callback would be a structural defect,
//! not a runtime condition; the single service pass rules it out by shape,
//! since the host runs to an outcome before the next request is dequeued.

use vstd::prelude::*;

use crate::envelope::{reply_for_outcome, reply_of_outcome, CallbackRequest, HostOutcome};
use crate::relay::{
    all_done, lemma_channel_keeps_requests_exact, RelayChannel, SlotModel, SlotStateModel,
};

verus! {

/// Slot `i` was serviced by one host call on exactly the arguments recorded
/// for it: some call of `host` on an envelope carrying this identifier and
/// these arguments produced an outcome, and the slot now holds exactly the
/// reply that outcome turns into.
pub open spec fn serviced_by_host<F: Fn(CallbackRequest) -> HostOutcome>(
    host: F,
    before: SlotModel,
    after: SlotModel,
    i: int,
) -> bool {
    &&& after.args == before.args
    &&& exists|req: CallbackRequest, o: HostOutcome|
        {
            &&& req@.id == i
            &&& req@.args == before.args
            &&& #[trigger] call_ensures(host, (req,), o)
            &&& after.state == SlotStateModel::Done { reply: reply_for_outcome(o@) }
        }
}

/// The dispatcher loop's service pass: dequeues every pending request, runs
/// the host call for it, and delivers the outcome's reply into that
/// request's slot.  Every queued request is serviced exactly once; slots
/// already serviced are left exactly as they were; nothing is lost and
/// nothing is duplicated.
pub fn run_dispatcher<F: Fn(CallbackRequest) -> HostOutcome>(relay: &mut RelayChannel, host: F)
    requires
        old(relay).wf(),
        forall|req: CallbackRequest| #[trigger] call_requires(host, (req,)),
        forall|i: int|
            0 <= i < old(relay).slots_view().len() ==> !((#[trigger] old(relay).slots_view()[i]).state
                is InService),
    ensures
        final(relay).wf(),
        final(relay).is_open() == old(relay).is_open(),
        final(relay).queue_view().len() == 0,
        final(relay).slots_view().len() == old(relay).slots_view().len(),
        all_done(final(relay).slots_view()),
        forall|i: int|
            0 <= i < old(relay).slots_view().len() && (#[trigger] old(relay).slots_view()[i]).state
                is Done ==> final(relay).slots_view()[i] == old(relay).slots_view()[i],
        forall|i: int|
            0 <= i < old(relay).slots_view().len() && (#[trigger] old(relay).slots_view()[i]).state
                is Queued ==> serviced_by_host(
                host,
                old(relay).slots_view()[i],
                final(relay).slots_view()[i],
                i,
            ),
{
    loop
        invariant
            relay.wf(),
            relay.is_open() == old(relay).is_open(),
            relay.slots_view().len() == old(relay).slots_view().len(),
            forall|req: CallbackRequest| #[trigger] call_requires(host, (req,)),
            forall|i: int|
                0 <= i < relay.slots_view().len() ==> !((#[trigger] relay.slots_view()[i]).state
                    is InService),
            forall|i: int|
                0 <= i < relay.slots_view().len() && (#[trigger] relay.slots_view()[i]).state
                    is Queued ==> relay.slots_view()[i] == old(relay).slots_view()[i],
            forall|i: int|
                0 <= i < old(relay).slots_view().len() && (#[trigger] old(relay).slots_view()[i]).state
                    is Done ==> relay.slots_view()[i] == old(relay).slots_view()[i],
            forall|i: int|
                0 <= i < old(relay).slots_view().len() && (#[trigger] old(relay).slots_view()[i]).state
                    is Queued ==> relay.slots_view()[i] == old(relay).slots_view()[i]
                    || serviced_by_host(
                    host,
                    old(relay).slots_view()[i],
                    relay.slots_view()[i],
                    i,
                ),
        ensures
            relay.wf(),
            relay.is_open() == old(relay).is_open(),
            relay.slots_view().len() == old(relay).slots_view().len(),
            relay.queue_view().len() == 0,
            forall|i: int|
                0 <= i < relay.slots_view().len() ==> !((#[trigger] relay.slots_view()[i]).state
                    is InService),
            forall|i: int|
                0 <= i < relay.slots_view().len() ==> !((#[trigger] relay.slots_view()[i]).state
                    is Queued),
            forall|i: int|
                0 <= i < old(relay).slots_view().len() && (#[trigger] old(relay).slots_view()[i]).state
                    is Done ==> relay.slots_view()[i] == old(relay).slots_view()[i],
            forall|i: int|
                0 <= i < old(relay).slots_view().len() && (#[trigger] old(relay).slots_view()[i]).state
                    is Queued ==> serviced_by_host(
                    host,
                    old(relay).slots_view()[i],
                    relay.slots_view()[i],
                    i,
                ),
        decreases relay.queue_view().len(),
    {
        if relay.pending_count() == 0 {
            proof {
                assert forall|i: int|
                    0 <= i < relay.slots_view().len() implies !((
                #[trigger] relay.slots_view()[i]).state is Queued) by {
                    lemma_channel_keeps_requests_exact(relay);
                }
                assert forall|i: int|
                    0 <= i < old(relay).slots_view().len() && (
                #[trigger] old(relay).slots_view()[i]).state is Queued implies serviced_by_host(
                    host,
                    old(relay).slots_view()[i],
                    relay.slots_view()[i],
                    i,
                ) by {
                    lemma_channel_keeps_requests_exact(relay);
                    assert(!(relay.slots_view()[i].state is Queued));
                }
            }
            break;
        }
        proof {
            lemma_channel_keeps_requests_exact(relay);
        }
        let ghost before = relay.slots_view();
        let req = relay.take_next();
        let id = req.id;
        let ghost greq = req;
        let o = host(req);
        let ghost go = o;
        relay.deliver(id, reply_of_outcome(o));
        proof {
            assert(call_ensures(host, (greq,), go));
            assert(relay.slots_view()[id as int].state == (SlotStateModel::Done {
                reply: reply_for_outcome(go@),
            }));
            assert(serviced_by_host(
                host,
                before[id as int],
                relay.slots_view()[id as int],
                id as int,
            ));
        }
    }
}

} // verus!
