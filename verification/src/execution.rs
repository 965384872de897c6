//! The execution entry point: the only safe place from which engine work
//! that may need host callbacks is launched.
//!
//! One `Execution` scopes one query: the host-owning thread submits the
//! query fragment to the engine's worker pool, then services relay requests
//! (itself, through `service_callbacks`, or stepwise through
//! `take_next_request` and `complete_request` when a driver performs the
//! host calls), and finally observes either completion or the first failure.
//! The phase machine is `Idle`, then `Submitted`, then `Dispatching`, and
//! terminally `Completed` or `Failed`; tearing the relay down on either exit
//! guarantees that no worker stays blocked on an unserviced request.

use vstd::prelude::*;

use crate::dispatcher::{run_dispatcher, serviced_by_host};
use crate::envelope::{
    reply_for_outcome, reply_of_outcome, CallbackRequest, ErrorModel, HostOutcome, RelayError,
    Reply, ReplyModel, RequestModel,
};
use crate::relay::{all_done, delivered, torn_down, RelayChannel, SlotModel, SlotStateModel};

verus! {

/// Where one execution stands, from the host-owning thread's point of view.
#[derive(Clone, Copy, Debug, PartialEq, Eq, Structural)]
pub enum ExecutionPhase {
    /// Nothing submitted yet; the relay scope is empty.
    Idle,
    /// The query fragment is with the engine's worker pool.
    Submitted,
    /// The host-owning thread is inside the servicing loop.
    Dispatching,
    /// The pool signaled completion and every request was serviced.
    Completed,
    /// An unrecoverable failure was observed and the relay was torn down.
    Failed,
}

/// One query execution: its relay channel, its phase, and the first error
/// observed, which is the single failure surfaced to the caller.
pub struct Execution {
    relay: RelayChannel,
    phase: ExecutionPhase,
    fault: Option<RelayError>,
}

impl Execution {
    /// The execution's phase.
    pub closed spec fn phase(&self) -> ExecutionPhase {
        self.phase
    }

    /// Every request issued in this execution, indexed by identifier.
    pub closed spec fn slots(&self) -> Seq<SlotModel> {
        self.relay.slots_view()
    }

    /// The pending relay queue.
    pub closed spec fn queue(&self) -> Seq<RequestModel> {
        self.relay.queue_view()
    }

    /// The first error observed, if the execution failed.
    pub closed spec fn fault_view(&self) -> Option<ErrorModel> {
        match self.fault {
            Option::Some(e) => Option::Some(e@),
            Option::None => Option::None,
        }
    }

    /// The execution's invariant: the relay is well formed and the phase
    /// matches the relay's state.
    pub closed spec fn wf(&self) -> bool {
        &&& self.relay.wf()
        &&& (self.phase is Idle ==> self.relay.slots_view().len() == 0
            && self.relay.queue_view().len() == 0 && self.relay.is_open())
        &&& (self.phase is Submitted || self.phase is Dispatching ==> self.relay.is_open())
        &&& (self.phase is Idle || self.phase is Submitted || self.phase is Dispatching
            ==> self.fault is None)
        &&& (self.phase is Completed ==> !self.relay.is_open() && all_done(self.relay.slots_view())
            && self.fault is None)
        &&& (self.phase is Failed ==> !self.relay.is_open() && all_done(self.relay.slots_view())
            && self.fault is Some)
    }

    /// A fresh execution scope: nothing submitted, nothing issued.
    pub fn new() -> (e: Execution)
        ensures
            e.wf(),
            e.phase() is Idle,
            e.slots().len() == 0,
            e.queue().len() == 0,
            e.fault_view() is None,
    {
        Execution { relay: RelayChannel::new(), phase: ExecutionPhase::Idle, fault: None }
    }

    /// The execution's phase, for a driver that runs the real loop.
    pub fn current_phase(&self) -> (p: ExecutionPhase)
        ensures
            p == self.phase(),
    {
        self.phase
    }

    /// How many requests are pending in the relay queue.
    pub fn pending_requests(&self) -> (n: usize)
        ensures
            n == self.queue().len(),
    {
        self.relay.pending_count()
    }

    /// How many requests were issued in this execution.
    pub fn issued_requests(&self) -> (n: usize)
        ensures
            n == self.slots().len(),
    {
        self.relay.issued_count()
    }

    /// Whether every issued request has been serviced.
    pub fn all_requests_serviced(&self) -> (b: bool)
        ensures
            b == all_done(self.slots()),
    {
        self.relay.all_serviced()
    }

    /// The single aggregated error, once the execution has failed.
    pub fn first_fault(&self) -> (r: Option<&RelayError>)
        ensures
            match r {
                Some(e) => self.fault_view() == Some(e@),
                None => self.fault_view() is None,
            },
    {
        match &self.fault {
            Some(e) => Some(e),
            None => None,
        }
    }

    /// Hands the query fragment to the engine's worker pool (a collaborator
    /// outside this model) and opens the relay scope of this execution.
    pub fn submit_query(&mut self)
        requires
            old(self).wf(),
            old(self).phase() is Idle,
        ensures
            final(self).wf(),
            final(self).phase() is Submitted,
            final(self).slots().len() == 0,
            final(self).queue().len() == 0,
            final(self).fault_view() is None,
    {
        self.phase = ExecutionPhase::Submitted;
    }

    /// The worker-side proxy's enqueue half: builds the request envelope and
    /// queues it.  While the execution is live the request is accepted and
    /// its fresh identifier returned; once the execution has completed or
    /// failed, the proxy observes `ChannelClosed` and nothing changes.
    /// Calling this before anything was submitted is a programming error,
    /// ruled out by contract rather than recovered from.
    pub fn request_host_call(&mut self, args: Vec<i64>) -> (r: Result<u64, RelayError>)
        requires
            old(self).wf(),
            !(old(self).phase() is Idle),
        ensures
            final(self).wf(),
            final(self).phase() == old(self).phase(),
            final(self).fault_view() == old(self).fault_view(),
            old(self).phase() is Submitted || old(self).phase() is Dispatching ==> {
                &&& r matches Ok(id) && id as int == old(self).slots().len()
                &&& final(self).slots() == old(self).slots().push(
                    SlotModel { args: args@, state: SlotStateModel::Queued },
                )
                &&& final(self).queue() == old(self).queue().push(
                    RequestModel { id: old(self).slots().len() as int, args: args@ },
                )
            },
            old(self).phase() is Completed || old(self).phase() is Failed ==> {
                &&& r matches Err(e) && e@ == ErrorModel::Closed
                &&& final(self).slots() == old(self).slots()
                &&& final(self).queue() == old(self).queue()
            },
    {
        self.relay.submit(args)
    }

    /// The worker-side proxy's read half: observes this request's one-shot
    /// reply slot.  Returns exactly the reply the dispatcher wrote for this
    /// request, or nothing while it is unserviced (where a real worker
    /// thread blocks).
    pub fn poll_reply(&self, id: u64) -> (r: Option<&Reply>)
        requires
            0 <= (id as int) < self.slots().len(),
        ensures
            match r {
                Some(rep) => self.slots()[id as int].state == (SlotStateModel::Done {
                    reply: rep@,
                }),
                None => !(self.slots()[id as int].state is Done),
            },
    {
        self.relay.reply_of(id)
    }

    /// The host-owning thread enters the servicing loop.
    pub fn enter_dispatch(&mut self)
        requires
            old(self).wf(),
            old(self).phase() is Submitted,
        ensures
            final(self).wf(),
            final(self).phase() is Dispatching,
            final(self).slots() == old(self).slots(),
            final(self).queue() == old(self).queue(),
            final(self).fault_view() is None,
    {
        self.phase = ExecutionPhase::Dispatching;
    }

    /// One dispatcher step for a driver that performs the host call itself:
    /// dequeues the oldest pending request and marks it in service.
    pub fn take_next_request(&mut self) -> (r: CallbackRequest)
        requires
            old(self).wf(),
            old(self).phase() is Dispatching,
            old(self).queue().len() > 0,
        ensures
            final(self).wf(),
            final(self).phase() is Dispatching,
            final(self).fault_view() is None,
            r@ == old(self).queue()[0],
            0 <= r@.id < old(self).slots().len(),
            old(self).slots()[r@.id].state is Queued,
            final(self).queue() == old(self).queue().subrange(1, old(self).queue().len() as int),
            final(self).slots() == old(self).slots().update(
                r@.id,
                SlotModel { args: old(self).slots()[r@.id].args, state: SlotStateModel::InService },
            ),
    {
        self.relay.take_next()
    }

    /// The other half of one dispatcher step: writes the host call's outcome
    /// into the requesting slot, exactly once, touching no other slot.
    pub fn complete_request(&mut self, id: u64, outcome: HostOutcome)
        requires
            old(self).wf(),
            old(self).phase() is Dispatching,
            0 <= (id as int) < old(self).slots().len(),
            old(self).slots()[id as int].state is InService,
        ensures
            final(self).wf(),
            final(self).phase() is Dispatching,
            final(self).fault_view() is None,
            final(self).queue() == old(self).queue(),
            final(self).slots() == delivered(
                old(self).slots(),
                id as int,
                reply_for_outcome(outcome@),
            ),
    {
        let reply = reply_of_outcome(outcome);
        self.relay.deliver(id, reply);
    }

    /// The dispatcher loop on the model itself: services every pending
    /// request with the given host call.  Requests already serviced keep
    /// their replies untouched; every queued request is serviced exactly
    /// once with its own arguments.
    pub fn service_callbacks<F: Fn(CallbackRequest) -> HostOutcome>(&mut self, host: F)
        requires
            old(self).wf(),
            old(self).phase() is Dispatching,
            forall|req: CallbackRequest| #[trigger] call_requires(host, (req,)),
            forall|i: int|
                0 <= i < old(self).slots().len() ==> !((#[trigger] old(self).slots()[i]).state
                    is InService),
        ensures
            final(self).wf(),
            final(self).phase() is Dispatching,
            final(self).fault_view() is None,
            final(self).queue().len() == 0,
            final(self).slots().len() == old(self).slots().len(),
            all_done(final(self).slots()),
            forall|i: int|
                0 <= i < old(self).slots().len() && (#[trigger] old(self).slots()[i]).state
                    is Done ==> final(self).slots()[i] == old(self).slots()[i],
            forall|i: int|
                0 <= i < old(self).slots().len() && (#[trigger] old(self).slots()[i]).state
                    is Queued ==> serviced_by_host(
                    host,
                    old(self).slots()[i],
                    final(self).slots()[i],
                    i,
                ),
    {
        run_dispatcher(&mut self.relay, host);
    }

    /// The pool signaled completion and every request issued before that
    /// signal has been serviced: the loop exits and the relay scope is torn
    /// down.  Since every slot already holds its reply, teardown changes no
    /// slot.
    pub fn complete(&mut self)
        requires
            old(self).wf(),
            old(self).phase() is Dispatching,
            all_done(old(self).slots()),
        ensures
            final(self).wf(),
            final(self).phase() is Completed,
            final(self).fault_view() is None,
            final(self).queue().len() == 0,
            final(self).slots() == old(self).slots(),
    {
        proof {
            assert(torn_down(old(self).relay.slots_view()) =~= old(self).relay.slots_view());
        }
        self.relay.close();
        self.phase = ExecutionPhase::Completed;
    }

    /// An unrecoverable failure was observed: the first error is recorded
    /// and the relay is torn down, so every worker still blocked on an
    /// unserviced request observes `ChannelClosed` rather than hanging
    /// forever, while branches already serviced keep their replies.
    pub fn fail(&mut self, error: RelayError)
        requires
            old(self).wf(),
            old(self).phase() is Dispatching,
        ensures
            final(self).wf(),
            final(self).phase() is Failed,
            final(self).fault_view() == Some(error@),
            final(self).queue().len() == 0,
            final(self).slots() == torn_down(old(self).slots()),
    {
        self.relay.close();
        self.fault = Some(error);
        self.phase = ExecutionPhase::Failed;
        proof {
            assert forall|i: int|
                0 <= i < self.relay.slots_view().len() implies (
            #[trigger] self.relay.slots_view()[i]).state is Done by {
                assert(self.relay.slots_view()[i] == torn_down(old(self).relay.slots_view())[i]);
            }
        }
    }
}

/// A terminal execution leaves no worker blocked: once the phase is
/// `Completed` or `Failed`, every request issued in the execution has a
/// reply in its slot — there is no request still waiting to hang forever.
pub proof fn lemma_terminal_phase_leaves_no_request_blocked(e: &Execution)
    requires
        e.wf(),
        e.phase() is Completed || e.phase() is Failed,
    ensures
        all_done(e.slots()),
{
}

/// The entry point surfaces exactly one aggregated outcome: a completed
/// execution carries no error, a failed one carries exactly one, and no
/// error is ever reported while the execution is still live.
pub proof fn lemma_single_aggregated_outcome(e: &Execution)
    requires
        e.wf(),
    ensures
        e.phase() is Completed ==> e.fault_view() is None,
        e.phase() is Failed ==> e.fault_view() is Some,
        e.phase() is Idle || e.phase() is Submitted || e.phase() is Dispatching
            ==> e.fault_view() is None,
{
}

/// The whole entry point on the model: submits the query, lets the given
/// requests be issued by the engine's evaluation, services them all, and
/// surfaces the aggregated outcome.  With no engine fault, the execution
/// completes and every request's slot holds the reply of its own host call;
/// with an engine fault, the execution fails with exactly that error and
/// every unserviced request observes `ChannelClosed`.
pub fn execute<F: Fn(CallbackRequest) -> HostOutcome>(
    requests: Vec<Vec<i64>>,
    host: F,
    engine_fault: Option<String>,
) -> (e: Execution)
    requires
        forall|req: CallbackRequest| #[trigger] call_requires(host, (req,)),
    ensures
        e.wf(),
        e.slots().len() == requests@.len(),
        e.queue().len() == 0,
        forall|i: int|
            0 <= i < requests@.len() ==> (#[trigger] e.slots()[i]).args == requests@[i]@,
        engine_fault is None ==> {
            &&& e.phase() is Completed
            &&& e.fault_view() is None
            &&& forall|i: int|
                0 <= i < requests@.len() ==> serviced_by_host(
                    host,
                    SlotModel { args: requests@[i]@, state: SlotStateModel::Queued },
                    #[trigger] e.slots()[i],
                    i,
                )
        },
        engine_fault matches Some(m) ==> {
            &&& e.phase() is Failed
            &&& e.fault_view() == Some(ErrorModel::Engine { message: m@ })
            &&& forall|i: int|
                0 <= i < requests@.len() ==> (#[trigger] e.slots()[i]).state == (
                SlotStateModel::Done {
                    reply: ReplyModel::Failure { error: ErrorModel::Closed },
                })
        },
{
    let ghost all = requests@;
    let mut reqs = requests;
    let mut e = Execution::new();
    e.submit_query();
    while reqs.len() > 0
        invariant
            e.wf(),
            e.phase() is Submitted,
            e.fault_view() is None,
            e.slots().len() + reqs@.len() == all.len(),
            forall|i: int|
                0 <= i < e.slots().len() ==> (#[trigger] e.slots()[i]) == (SlotModel {
                    args: all[i]@,
                    state: SlotStateModel::Queued,
                }),
            forall|j: int| 0 <= j < reqs@.len() ==> reqs@[j] == all[e.slots().len() + j],
        decreases reqs@.len(),
    {
        let a = reqs.remove(0);
        let _ = e.request_host_call(a);
    }
    match engine_fault {
        None => {
            let ghost submitted = e.slots();
            e.enter_dispatch();
            e.service_callbacks(host);
            e.complete();
            proof {
                assert forall|i: int|
                    0 <= i < all.len() implies serviced_by_host(
                    host,
                    SlotModel { args: all[i]@, state: SlotStateModel::Queued },
                    #[trigger] e.slots()[i],
                    i,
                ) && e.slots()[i].args == all[i]@ by {
                    assert(submitted[i] == (SlotModel {
                        args: all[i]@,
                        state: SlotStateModel::Queued,
                    }));
                    assert(serviced_by_host(host, submitted[i], e.slots()[i], i));
                }
            }
        },
        Some(m) => {
            e.enter_dispatch();
            let ghost pre = e.slots();
            e.fail(RelayError::EngineFailure { message: m });
            proof {
                assert forall|i: int|
                    0 <= i < all.len() implies (#[trigger] e.slots()[i]).state == (
                SlotStateModel::Done {
                    reply: ReplyModel::Failure { error: ErrorModel::Closed },
                }) && e.slots()[i].args == all[i]@ by {
                    assert(e.slots()[i] == torn_down(pre)[i]);
                }
            }
        },
    }
    e
}

} // verus!
