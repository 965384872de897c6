//! The relay channel: a queue of request envelopes together with the one-shot
//! reply slot of every request ever issued in the current execution.
//!
//! Workers enqueue with `submit`; the single dispatcher drains with
//! `take_next` and writes results with `deliver`; a blocked worker observes
//! its slot with `reply_of`; `close` tears the channel down and fails every
//! request that was never serviced, so no worker stays blocked forever.
//!
//! The well-formedness invariant `wf` pins the channel's bookkeeping down:
//! every queued envelope names a live slot that is still waiting, no request
//! identifier is queued twice, and every waiting slot is named by exactly the
//! queue.  From it follow the relay's guarantees: a request is serviced at
//! most once (`deliver` demands a slot in service, and only `take_next` puts
//! one there), and a reply lands in exactly the slot it was written for.

use vstd::prelude::*;

use crate::envelope::{CallbackRequest, ErrorModel, RelayError, Reply, ReplyModel, RequestModel};

verus! {

/// Where one request stands: still queued, dequeued and being run by the
/// dispatcher, or serviced with its reply written.
pub enum SlotState {
    Queued,
    InService,
    Done { reply: Reply },
}

/// Mathematical image of a `SlotState`.
pub enum SlotStateModel {
    Queued,
    InService,
    Done { reply: ReplyModel },
}

impl View for SlotState {
    type V = SlotStateModel;

    open spec fn view(&self) -> SlotStateModel {
        match self {
            SlotState::Queued => SlotStateModel::Queued,
            SlotState::InService => SlotStateModel::InService,
            SlotState::Done { reply } => SlotStateModel::Done { reply: reply@ },
        }
    }
}

/// One request as the contracts see it: the arguments it was submitted with
/// and where its reply slot stands.
pub struct SlotModel {
    pub args: Seq<i64>,
    pub state: SlotStateModel,
}

/// The slot sequence after a reply is written into slot `id`: that slot is
/// done with exactly this reply, every other slot is untouched.
pub open spec fn delivered(s: Seq<SlotModel>, id: int, r: ReplyModel) -> Seq<SlotModel> {
    s.update(id, SlotModel { args: s[id].args, state: SlotStateModel::Done { reply: r } })
}

/// The slot sequence after the channel is torn down: serviced slots keep
/// their replies, every other slot is failed with `ChannelClosed`.
pub open spec fn torn_down(s: Seq<SlotModel>) -> Seq<SlotModel> {
    Seq::new(
        s.len(),
        |i: int|
            if s[i].state is Done {
                s[i]
            } else {
                SlotModel {
                    args: s[i].args,
                    state: SlotStateModel::Done {
                        reply: ReplyModel::Failure { error: ErrorModel::Closed },
                    },
                }
            },
    )
}

/// Every issued request has been serviced.
pub open spec fn all_done(s: Seq<SlotModel>) -> bool {
    forall|i: int| 0 <= i < s.len() ==> (#[trigger] s[i]).state is Done
}

/// A queued envelope is faithful: it names a live slot that is still waiting
/// and carries exactly the arguments recorded for that slot.
spec fn request_ok(r: CallbackRequest, slots: Seq<SlotState>, log: Seq<Seq<i64>>) -> bool {
    &&& (r.id as int) < slots.len()
    &&& slots[r.id as int] is Queued
    &&& log[r.id as int] == r.args@
}

/// The relay channel of one execution: the pending queue, the reply slot of
/// every request issued so far (indexed by request identifier), and whether
/// the channel still accepts requests.
pub struct RelayChannel {
    queue: Vec<CallbackRequest>,
    slots: Vec<SlotState>,
    open: bool,
    log: Ghost<Seq<Seq<i64>>>,
}

impl RelayChannel {
    /// The pending queue, oldest request first.
    pub closed spec fn queue_view(&self) -> Seq<RequestModel> {
        self.queue@.map_values(|r: CallbackRequest| r@)
    }

    /// Every request issued so far, indexed by request identifier.
    pub closed spec fn slots_view(&self) -> Seq<SlotModel> {
        Seq::new(
            self.slots@.len(),
            |i: int| SlotModel { args: self.log@[i], state: self.slots@[i]@ },
        )
    }

    /// Whether the channel still accepts requests.
    pub closed spec fn is_open(&self) -> bool {
        self.open
    }

    /// The channel's bookkeeping invariant.
    pub closed spec fn wf(&self) -> bool {
        &&& self.log@.len() == self.slots@.len()
        &&& forall|i: int|
            0 <= i < self.queue@.len() ==> request_ok(
                #[trigger] self.queue@[i],
                self.slots@,
                self.log@,
            )
        &&& forall|i: int, j: int|
            0 <= i < j < self.queue@.len() ==> #[trigger] self.queue@[i].id
                < #[trigger] self.queue@[j].id
        &&& forall|k: int|
            0 <= k < self.slots@.len() && (#[trigger] self.slots@[k]) is Queued ==> exists|i: int|
                0 <= i < self.queue@.len() && (#[trigger] self.queue@[i]).id as int == k
    }

    /// A fresh, open, empty channel.
    pub fn new() -> (c: RelayChannel)
        ensures
            c.wf(),
            c.is_open(),
            c.queue_view().len() == 0,
            c.slots_view().len() == 0,
    {
        RelayChannel { queue: Vec::new(), slots: Vec::new(), open: true, log: Ghost(Seq::empty()) }
    }

    /// How many requests are pending in the queue.
    pub fn pending_count(&self) -> (n: usize)
        ensures
            n == self.queue_view().len(),
    {
        self.queue.len()
    }

    /// How many requests were issued in this execution.
    pub fn issued_count(&self) -> (n: usize)
        ensures
            n == self.slots_view().len(),
    {
        self.slots.len()
    }

    /// Whether the channel still accepts requests.
    pub fn channel_open(&self) -> (b: bool)
        ensures
            b == self.is_open(),
    {
        self.open
    }

    /// The worker-side enqueue half of the proxy: wraps the marshaled
    /// arguments in a fresh envelope, queues it, and opens its reply slot.
    /// On a channel already torn down, reports `ChannelClosed` and changes
    /// nothing: a late request is a propagated failure, never a crash.
    pub fn submit(&mut self, args: Vec<i64>) -> (r: Result<u64, RelayError>)
        requires
            old(self).wf(),
        ensures
            final(self).wf(),
            final(self).is_open() == old(self).is_open(),
            old(self).is_open() ==> {
                &&& r matches Ok(id) && id as int == old(self).slots_view().len()
                &&& final(self).slots_view() == old(self).slots_view().push(
                    SlotModel { args: args@, state: SlotStateModel::Queued },
                )
                &&& final(self).queue_view() == old(self).queue_view().push(
                    RequestModel { id: old(self).slots_view().len() as int, args: args@ },
                )
            },
            !old(self).is_open() ==> {
                &&& r matches Err(e) && e@ == ErrorModel::Closed
                &&& final(self).slots_view() == old(self).slots_view()
                &&& final(self).queue_view() == old(self).queue_view()
            },
    {
        if !self.open {
            return Err(RelayError::ChannelClosed);
        }
        let n = self.slots.len();
        let id: u64 = n as u64;
        let ghost a = args@;
        self.queue.push(CallbackRequest { id, args });
        self.slots.push(SlotState::Queued);
        self.log = Ghost(self.log@.push(a));
        proof {
            assert(self.slots_view() =~= old(self).slots_view().push(
                SlotModel { args: a, state: SlotStateModel::Queued },
            ));
            assert(self.queue_view() =~= old(self).queue_view().push(
                RequestModel { id: n as int, args: a },
            ));
            assert forall|i: int|
                0 <= i < self.queue@.len() implies request_ok(
                #[trigger] self.queue@[i],
                self.slots@,
                self.log@,
            ) by {
                if i < old(self).queue@.len() {
                    assert(request_ok(old(self).queue@[i], old(self).slots@, old(self).log@));
                }
            }
            assert forall|i: int, j: int|
                0 <= i < j < self.queue@.len() implies #[trigger] self.queue@[i].id
                < #[trigger] self.queue@[j].id by {
                if j < old(self).queue@.len() {
                } else {
                    assert(request_ok(old(self).queue@[i], old(self).slots@, old(self).log@));
                }
            }
            assert forall|k: int|
                0 <= k < self.slots@.len() && (#[trigger] self.slots@[k]) is Queued implies exists|
                i: int,
            |
                0 <= i < self.queue@.len() && (#[trigger] self.queue@[i]).id as int == k by {
                if k < old(self).slots@.len() {
                    let i = choose|i: int|
                        0 <= i < old(self).queue@.len() && (#[trigger] old(self).queue@[i]).id
                            as int == k;
                    assert(self.queue@[i].id as int == k);
                } else {
                    assert(self.queue@[self.queue@.len() - 1].id as int == k);
                }
            }
        }
        Ok(id)
    }

    /// The dispatcher's dequeue: removes the oldest pending envelope and
    /// marks its slot as in service.  Only the single dispatcher calls this,
    /// and a dequeued request can never be dequeued again.
    pub fn take_next(&mut self) -> (r: CallbackRequest)
        requires
            old(self).wf(),
            old(self).queue_view().len() > 0,
        ensures
            final(self).wf(),
            final(self).is_open() == old(self).is_open(),
            r@ == old(self).queue_view()[0],
            0 <= r@.id < old(self).slots_view().len(),
            old(self).slots_view()[r@.id].state is Queued,
            final(self).queue_view() == old(self).queue_view().subrange(
                1,
                old(self).queue_view().len() as int,
            ),
            final(self).slots_view() == old(self).slots_view().update(
                r@.id,
                SlotModel {
                    args: old(self).slots_view()[r@.id].args,
                    state: SlotStateModel::InService,
                },
            ),
    {
        proof {
            assert(request_ok(self.queue@[0], self.slots@, self.log@));
        }
        let n = self.slots.len();
        let req = self.queue.remove(0);
        proof {
            assert((req.id as int) < (n as int));
        }
        let idx: usize = req.id as usize;
        self.slots[idx] = SlotState::InService;
        proof {
            assert(self.queue@ =~= old(self).queue@.subrange(1, old(self).queue@.len() as int));
            assert(self.queue_view() =~= old(self).queue_view().subrange(
                1,
                old(self).queue_view().len() as int,
            ));
            assert(self.slots_view() =~= old(self).slots_view().update(
                req.id as int,
                SlotModel {
                    args: old(self).slots_view()[req.id as int].args,
                    state: SlotStateModel::InService,
                },
            ));
            assert forall|i: int|
                0 <= i < self.queue@.len() implies request_ok(
                #[trigger] self.queue@[i],
                self.slots@,
                self.log@,
            ) by {
                assert(request_ok(old(self).queue@[i + 1], old(self).slots@, old(self).log@));
                assert(old(self).queue@[0].id < old(self).queue@[i + 1].id);
            }
            assert forall|k: int|
                0 <= k < self.slots@.len() && (#[trigger] self.slots@[k]) is Queued implies exists|
                i: int,
            |
                0 <= i < self.queue@.len() && (#[trigger] self.queue@[i]).id as int == k by {
                assert(k != req.id as int);
                assert(old(self).slots@[k] is Queued);
                let i0 = choose|i0: int|
                    0 <= i0 < old(self).queue@.len() && (#[trigger] old(self).queue@[i0]).id
                        as int == k;
                assert(i0 != 0);
                assert(self.queue@[i0 - 1].id as int == k);
            }
        }
        req
    }

    /// The dispatcher's write into a request's one-shot reply slot.  The slot
    /// must be in service: a slot is written at most once, and only for a
    /// request the dispatcher actually dequeued.
    pub fn deliver(&mut self, id: u64, reply: Reply)
        requires
            old(self).wf(),
            0 <= (id as int) < old(self).slots_view().len(),
            old(self).slots_view()[id as int].state is InService,
        ensures
            final(self).wf(),
            final(self).is_open() == old(self).is_open(),
            final(self).queue_view() == old(self).queue_view(),
            final(self).slots_view() == delivered(old(self).slots_view(), id as int, reply@),
    {
        let n = self.slots.len();
        proof {
            assert((id as int) < (n as int));
        }
        let ghost rv = reply@;
        let idx: usize = id as usize;
        self.slots[idx] = SlotState::Done { reply };
        proof {
            assert(self.slots_view() =~= delivered(old(self).slots_view(), id as int, rv));
            assert forall|i: int|
                0 <= i < self.queue@.len() implies request_ok(
                #[trigger] self.queue@[i],
                self.slots@,
                self.log@,
            ) by {
                assert(request_ok(old(self).queue@[i], old(self).slots@, old(self).log@));
            }
            assert forall|k: int|
                0 <= k < self.slots@.len() && (#[trigger] self.slots@[k]) is Queued implies exists|
                i: int,
            |
                0 <= i < self.queue@.len() && (#[trigger] self.queue@[i]).id as int == k by {
                let i0 = choose|i0: int|
                    0 <= i0 < old(self).queue@.len() && (#[trigger] old(self).queue@[i0]).id
                        as int == k;
                assert(self.queue@[i0].id as int == k);
            }
        }
    }

    /// The worker-side read half of the proxy: observes the request's reply
    /// slot.  Returns the reply the dispatcher wrote for exactly this
    /// request, or nothing while the request is unserviced (the point where
    /// a real worker thread blocks).
    pub fn reply_of(&self, id: u64) -> (r: Option<&Reply>)
        requires
            0 <= (id as int) < self.slots_view().len(),
        ensures
            match r {
                Some(rep) => self.slots_view()[id as int].state == (SlotStateModel::Done {
                    reply: rep@,
                }),
                None => !(self.slots_view()[id as int].state is Done),
            },
    {
        let n = self.slots.len();
        proof {
            assert((id as int) < (n as int));
        }
        let idx: usize = id as usize;
        match &self.slots[idx] {
            SlotState::Done { reply } => Some(reply),
            _ => None,
        }
    }

    /// Tears the channel down: no further request is accepted, the queue is
    /// dropped, and every slot not yet serviced is failed with
    /// `ChannelClosed`, so every blocked worker observes a reply.  Slots
    /// already serviced keep exactly the reply they were given.
    pub fn close(&mut self)
        requires
            old(self).wf(),
        ensures
            final(self).wf(),
            !final(self).is_open(),
            final(self).queue_view().len() == 0,
            final(self).slots_view() == torn_down(old(self).slots_view()),
    {
        self.open = false;
        self.queue = Vec::new();
        let n = self.slots.len();
        let mut i: usize = 0;
        while i < n
            invariant
                i <= n,
                n == self.slots@.len(),
                self.slots@.len() == old(self).slots@.len(),
                self.log@ == old(self).log@,
                self.log@.len() == self.slots@.len(),
                !self.open,
                self.queue@.len() == 0,
                forall|k: int| i <= k < n ==> self.slots@[k] == old(self).slots@[k],
                forall|k: int|
                    0 <= k < i ==> (#[trigger] self.slots@[k]) is Done && self.slots@[k]@
                        == torn_down(old(self).slots_view())[k].state,
            decreases n - i,
        {
            let done = match &self.slots[i] {
                SlotState::Done { .. } => true,
                _ => false,
            };
            if !done {
                self.slots[i] = SlotState::Done {
                    reply: Reply::Failure { error: RelayError::ChannelClosed },
                };
            }
            i += 1;
        }
        proof {
            assert(self.slots_view() =~= torn_down(old(self).slots_view()));
        }
    }

    /// Whether every issued request has been serviced.
    pub fn all_serviced(&self) -> (b: bool)
        ensures
            b == all_done(self.slots_view()),
    {
        let n = self.slots.len();
        let mut i: usize = 0;
        while i < n
            invariant
                i <= n,
                n == self.slots@.len(),
                forall|k: int| 0 <= k < i ==> (#[trigger] self.slots_view()[k]).state is Done,
            decreases n - i,
        {
            let done = match &self.slots[i] {
                SlotState::Done { .. } => true,
                _ => false,
            };
            if !done {
                proof {
                    assert(!(self.slots_view()[i as int].state is Done));
                }
                return false;
            }
            i += 1;
        }
        true
    }
}

/// Each request's proxy observes exactly the value the dispatcher wrote for
/// that request: writing a reply into slot `id` puts exactly that reply
/// there, with the slot's arguments untouched, and leaves every other
/// request's slot exactly as it was.
pub proof fn lemma_reply_reaches_only_its_request(
    s: Seq<SlotModel>,
    id: int,
    r: ReplyModel,
    j: int,
)
    requires
        0 <= id < s.len(),
        0 <= j < s.len(),
        j != id,
    ensures
        delivered(s, id, r).len() == s.len(),
        delivered(s, id, r)[id].state == (SlotStateModel::Done { reply: r }),
        delivered(s, id, r)[id].args == s[id].args,
        delivered(s, id, r)[j] == s[j],
{
}

/// Tearing the channel down leaves no request blocked: afterwards every slot
/// is serviced; a slot that was still waiting holds `ChannelClosed`, and a
/// slot already serviced keeps exactly the reply it had.
pub proof fn lemma_teardown_unblocks_every_request(s: Seq<SlotModel>, i: int)
    requires
        0 <= i < s.len(),
    ensures
        torn_down(s).len() == s.len(),
        torn_down(s)[i].state is Done,
        !(s[i].state is Done) ==> torn_down(s)[i] == (SlotModel {
            args: s[i].args,
            state: SlotStateModel::Done {
                reply: ReplyModel::Failure { error: ErrorModel::Closed },
            },
        }),
        s[i].state is Done ==> torn_down(s)[i] == s[i],
{
}

/// The channel neither loses, duplicates, nor corrupts a request: in a
/// well-formed channel no request identifier is queued twice, every queued
/// envelope carries exactly the arguments its slot was opened with and that
/// slot is still waiting, and every waiting slot has its envelope in the
/// queue.
pub proof fn lemma_channel_keeps_requests_exact(c: &RelayChannel)
    requires
        c.wf(),
    ensures
        forall|i: int, j: int|
            0 <= i < j < c.queue_view().len() ==> (#[trigger] c.queue_view()[i]).id != (
            #[trigger] c.queue_view()[j]).id,
        forall|i: int|
            0 <= i < c.queue_view().len() ==> {
                let r = #[trigger] c.queue_view()[i];
                &&& 0 <= r.id < c.slots_view().len()
                &&& c.slots_view()[r.id].state is Queued
                &&& c.slots_view()[r.id].args == r.args
            },
        forall|k: int|
            0 <= k < c.slots_view().len() && (#[trigger] c.slots_view()[k]).state is Queued
                ==> exists|i: int|
                0 <= i < c.queue_view().len() && (#[trigger] c.queue_view()[i]).id == k,
{
    assert forall|i: int, j: int|
        0 <= i < j < c.queue_view().len() implies (#[trigger] c.queue_view()[i]).id != (
    #[trigger] c.queue_view()[j]).id by {
        assert(c.queue@[i].id < c.queue@[j].id);
    }
    assert forall|i: int|
        0 <= i < c.queue_view().len() implies {
        let r = #[trigger] c.queue_view()[i];
        &&& 0 <= r.id < c.slots_view().len()
        &&& c.slots_view()[r.id].state is Queued
        &&& c.slots_view()[r.id].args == r.args
    } by {
        assert(request_ok(c.queue@[i], c.slots@, c.log@));
    }
    assert forall|k: int|
        0 <= k < c.slots_view().len() && (#[trigger] c.slots_view()[k]).state is Queued
        implies exists|i: int|
        0 <= i < c.queue_view().len() && (#[trigger] c.queue_view()[i]).id == k by {
        assert(c.slots@[k] is Queued);
        let i0 = choose|i0: int|
            0 <= i0 < c.queue@.len() && (#[trigger] c.queue@[i0]).id as int == k;
        assert(c.queue_view()[i0].id == k);
    }
}

/// A host-raised error fails exactly the branch that requested it: after the
/// dispatcher delivers the failure to slot `id` and the channel is torn
/// down, a sibling slot that had already completed still holds exactly its
/// old reply, while slot `id` holds the host failure.
pub proof fn lemma_completed_branches_survive_failure(
    s: Seq<SlotModel>,
    id: int,
    m: Seq<char>,
    j: int,
)
    requires
        0 <= id < s.len(),
        0 <= j < s.len(),
        j != id,
        s[j].state is Done,
    ensures
        torn_down(delivered(s, id, ReplyModel::Failure { error: ErrorModel::HostCall { message: m } }))[j]
            == s[j],
        torn_down(delivered(s, id, ReplyModel::Failure { error: ErrorModel::HostCall { message: m } }))[id].state
            == (SlotStateModel::Done {
            reply: ReplyModel::Failure { error: ErrorModel::HostCall { message: m } },
        }),
{
}

} // verus!
