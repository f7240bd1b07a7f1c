//! How a list of devices gets registered: one request after the other, until one
//! is refused.

use crate::driver::Registration;
use crate::error::Error;
use vstd::prelude::*;

verus! {

/// What the caller is to do on the way to a registration.
#[derive(Debug)]
pub enum RegistrationAction<'a> {
    /// Request this device, which has this place in the list.
    Request(usize, Registration<'a>),
    /// All devices are registered.
    Done,
    /// The registration has failed. Nothing more is to be requested.
    Failed(Error),
}

/// The action that turns to the device at a place in the list, if there is one.
pub open spec fn turn_to<'a>(list: Seq<Registration<'a>>, idx: int) -> RegistrationAction<'a> {
    if idx < list.len() {
        RegistrationAction::Request(idx as usize, list[idx])
    } else {
        RegistrationAction::Done
    }
}

/// The action that follows the reply to the request for the device at a place in
/// the list.
pub open spec fn after_reply<'a>(
    list: Seq<Registration<'a>>,
    idx: int,
    reply: Result<(), Error>,
) -> RegistrationAction<'a> {
    match reply {
        Ok(_) => turn_to(list, idx + 1),
        Err(e) => RegistrationAction::Failed(e),
    }
}

/// The first action of a registration.
pub fn start_registration<'a>(list: &Vec<Registration<'a>>) -> (r: RegistrationAction<'a>)
    ensures
        r == turn_to(list@, 0),
{
    if list.len() > 0 {
        RegistrationAction::Request(0, list[0])
    } else {
        RegistrationAction::Done
    }
}

/// The action that follows a reply. A refusal ends the registration with its error.
pub fn next_registration<'a>(
    list: &Vec<Registration<'a>>,
    idx: usize,
    reply: Result<(), Error>,
) -> (r: RegistrationAction<'a>)
    requires
        idx < list@.len(),
    ensures
        r == after_reply(list@, idx as int, reply),
{
    match reply {
        Ok(_) => if idx < list.len() - 1 {
            RegistrationAction::Request(idx + 1, list[idx + 1])
        } else {
            RegistrationAction::Done
        },
        Err(e) => RegistrationAction::Failed(e),
    }
}

/// How a registration goes on from the request for the device at `idx`: what is
/// requested, and the action at the end. `replies` holds the reply to each request.
pub open spec fn registration<'a>(
    list: Seq<Registration<'a>>,
    idx: int,
    replies: Seq<Result<(), Error>>,
) -> (Seq<Registration<'a>>, RegistrationAction<'a>)
    decreases list.len() - idx,
{
    if !(0 <= idx < list.len()) {
        (seq![], turn_to(list, idx))
    } else {
        match after_reply(list, idx, replies[idx]) {
            RegistrationAction::Request(..) => {
                let (requests, end) = registration(list, idx + 1, replies);
                (seq![list[idx]] + requests, end)
            },
            end => (seq![list[idx]], end),
        }
    }
}

/// A refused request ends the registration: its error is the result, and no later
/// device is requested.
pub proof fn refusal_ends_the_registration<'a>(
    list: Seq<Registration<'a>>,
    idx: int,
    replies: Seq<Result<(), Error>>,
    k: int,
)
    requires
        0 <= idx <= k < list.len(),
        replies.len() == list.len(),
        forall|j: int| idx <= j < k ==> (#[trigger] replies[j]) is Ok,
        replies[k] is Err,
    ensures
        registration(list, idx, replies) == (
            list.subrange(idx, k + 1),
            RegistrationAction::Failed(replies[k]->Err_0),
        ),
    decreases k - idx,
{
    if idx < k {
        assert(replies[idx] is Ok);
        refusal_ends_the_registration(list, idx + 1, replies, k);
        assert(seq![list[idx]] + list.subrange(idx + 1, k + 1) =~= list.subrange(idx, k + 1));
    } else {
        assert(seq![list[idx]] =~= list.subrange(idx, k + 1));
    }
}

/// Where no request is refused, every device is requested once, in the order of the
/// list, and the registration is done.
pub proof fn registration_requests_all<'a>(
    list: Seq<Registration<'a>>,
    idx: int,
    replies: Seq<Result<(), Error>>,
)
    requires
        0 <= idx <= list.len(),
        replies.len() == list.len(),
        forall|j: int| idx <= j < list.len() ==> (#[trigger] replies[j]) is Ok,
    ensures
        registration(list, idx, replies) == (
            list.subrange(idx, list.len() as int),
            RegistrationAction::<'a>::Done,
        ),
    decreases list.len() - idx,
{
    let n = list.len() as int;
    if idx < n {
        assert(replies[idx] is Ok);
        registration_requests_all(list, idx + 1, replies);
        assert(seq![list[idx]] + list.subrange(idx + 1, n) =~= list.subrange(idx, n));
    } else {
        assert(list.subrange(idx, n) =~= seq![]);
    }
}

/// A registration starts with the first device of the list. Each device that is
/// added is followed by a request for the next one, as the list has it; after the
/// last one the registration is done, and so it is at once if the list is empty. A
/// refusal comes out as it is.
pub proof fn requests_follow_the_list<'a>(
    list: Vec<Registration<'a>>,
    idx: usize,
    reply: Result<(), Error>,
)
    requires
        idx < list@.len(),
    ensures
        turn_to(list@, 0) == RegistrationAction::Request(0, list@[0]),
        turn_to(Seq::<Registration<'a>>::empty(), 0) is Done,
        reply is Ok && idx + 1 < list@.len() ==> after_reply(list@, idx as int, reply)
            == RegistrationAction::Request((idx + 1) as usize, list@[idx + 1]),
        reply is Ok && idx + 1 == list@.len() ==> after_reply(list@, idx as int, reply) is Done,
        reply matches Err(e) ==> after_reply(list@, idx as int, reply)
            == RegistrationAction::<'a>::Failed(e),
{
}

} // verus!
