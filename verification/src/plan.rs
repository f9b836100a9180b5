//! Transport plans.
//!
//! Every protocol operation decomposes into a fixed, response-independent
//! sequence of transport steps: send one frame over the control channel, or
//! read one response frame from the interrupt endpoint. The library builds
//! that sequence as a plan, a list of actions with an exact contract, and
//! an unverified driver performs the physical transfers one action at a
//! time. Decisions that depend on what was read (status polling, queue
//! draining) are separate functions over the bytes that came back.

use vstd::prelude::*;

verus! {

/// One transport step: send the given frame over the control channel, or
/// read (and hand back) one response frame from the interrupt endpoint.
#[derive(Debug)]
pub enum Action {
    Send(Vec<u8>),
    Read,
}

/// Holds when an action sends exactly the frame `f`.
pub open spec fn is_send_of(a: Action, f: Seq<u8>) -> bool {
    a matches Action::Send(v) && v@ == f
}

/// How many actions of a plan send a frame.
pub open spec fn count_sends(s: Seq<Action>) -> int
    decreases s.len(),
{
    if s.len() == 0 {
        0
    } else {
        count_sends(s.drop_last()) + if s.last() is Send {
            1int
        } else {
            0int
        }
    }
}

/// How many actions of a plan read a response.
pub open spec fn count_reads(s: Seq<Action>) -> int
    decreases s.len(),
{
    if s.len() == 0 {
        0
    } else {
        count_reads(s.drop_last()) + if s.last() is Read {
            1int
        } else {
            0int
        }
    }
}

/// Appending one action raises exactly one of the two counts by one.
pub proof fn lemma_count_push(s: Seq<Action>, a: Action)
    ensures
        count_sends(s.push(a)) == count_sends(s) + if a is Send {
            1int
        } else {
            0int
        },
        count_reads(s.push(a)) == count_reads(s) + if a is Read {
            1int
        } else {
            0int
        },
{
    assert(s.push(a).drop_last() =~= s);
    assert(s.push(a).last() == a);
}

/// Appends a send step for the given frame to the plan under construction.
pub fn push_send(v: &mut Vec<Action>, f: Vec<u8>)
    ensures
        final(v)@ == old(v)@.push(Action::Send(f)),
        count_sends(final(v)@) == count_sends(old(v)@) + 1,
        count_reads(final(v)@) == count_reads(old(v)@),
{
    proof {
        lemma_count_push(v@, Action::Send(f));
    }
    v.push(Action::Send(f));
}

/// Appends a read step to the plan under construction.
pub fn push_read(v: &mut Vec<Action>)
    ensures
        final(v)@ == old(v)@.push(Action::Read),
        count_sends(final(v)@) == count_sends(old(v)@),
        count_reads(final(v)@) == count_reads(old(v)@) + 1,
{
    proof {
        lemma_count_push(v@, Action::Read);
    }
    v.push(Action::Read);
}

} // verus!
