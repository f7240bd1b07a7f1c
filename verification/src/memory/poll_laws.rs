//! What holds of a whole round of polling the memory devices.

use crate::device::{Base, DeviceValue};
use crate::error::Error;
use crate::memory::drv_memory::{joined, Devices, PollAction, PollEvent};
use vstd::prelude::*;

verus! {

/// A setting that waits in the queue of a device, with the one to answer.
pub type Waiting<S> = (DeviceValue, S);

/// An answer to a client.
pub type Answer<S> = (S, Result<DeviceValue, Error>);

/// How a round goes on from the point at which the device `idx` is asked, and the
/// answers that are given on the way. `queues` holds the settings that wait for
/// each device.
pub open spec fn round<S>(devs: Devices, idx: int, queues: Seq<Seq<Waiting<S>>>) -> (
    PollAction,
    Seq<Answer<S>>,
)
    recommends
        0 <= idx < devs.set@.len(),
    decreases devs.set@.len() - idx, queues[idx].len(),
{
    if !(0 <= idx < devs.set@.len() && idx < queues.len()) {
        (PollAction::Pending, seq![])
    } else if queues[idx].len() == 0 {
        match devs.after_asking(idx, PollEvent::<S>::Nothing).action {
            PollAction::Ask(next) => if next == idx + 1 {
                round(devs, next as int, queues)
            } else {
                (PollAction::Pending, seq![])
            },
            action => (action, seq![]),
        }
    } else {
        let (val, responder) = queues[idx].first();
        let step = devs.after_asking(idx, PollEvent::Setting(val, responder));
        let given = seq![step.answer->0];
        match step.action {
            PollAction::Ask(_) => {
                let (action, answers) = round(
                    devs,
                    idx,
                    queues.update(idx, queues[idx].drop_first()),
                );
                (action, given + answers)
            },
            action => (action, given),
        }
    }
}

/// Whether no setting in a queue is of the type of its device.
pub open spec fn none_good<S>(devs: Devices, idx: int, queue: Seq<Waiting<S>>) -> bool {
    forall|k: int| 0 <= k < queue.len() ==> !devs.set@[idx].admits((#[trigger] queue[k]).0)
}

/// The settings in a queue, all refused.
pub open spec fn refused<S>(queue: Seq<Waiting<S>>) -> Seq<Answer<S>> {
    Seq::new(queue.len(), |k: int| (queue[k].1, Err(Error::TypeError)))
}

/// The settings in the queues of the devices from `from` on and before `to`, all
/// refused.
pub open spec fn all_refused<S>(queues: Seq<Seq<Waiting<S>>>, from: int, to: int) -> Seq<Answer<S>>
    decreases to - from,
{
    if from >= to {
        seq![]
    } else {
        refused(queues[from]) + all_refused(queues, from + 1, to)
    }
}

/// The first setting of the right type wins: if no device from `idx` on and
/// before `i` has one, and the first that `i` has is at `k`, then that one is the
/// result of the round. Every setting before it is refused with a type error,
/// once, and it is answered with its value.
pub proof fn first_good_setting_wins<S>(
    devs: Devices,
    idx: int,
    queues: Seq<Seq<Waiting<S>>>,
    i: int,
    k: int,
)
    requires
        0 <= idx <= i < devs.set@.len(),
        queues.len() == devs.set@.len(),
        forall|j: int| idx <= j < i ==> none_good(devs, j, #[trigger] queues[j]),
        0 <= k < queues[i].len(),
        none_good(devs, i, queues[i].take(k)),
        devs.set@[i].admits(queues[i][k].0),
    ensures
        round(devs, idx, queues) == (
            PollAction::Ready(i as usize, queues[i][k].0),
            all_refused(queues, idx, i) + refused(queues[i].take(k)) + seq![
                (queues[i][k].1, Ok(queues[i][k].0)),
            ],
        ),
    decreases devs.set@.len() - idx, queues[idx].len(),
{
    let queue = queues[idx];
    assert(devs.set@.len() == devs.set.len());
    let last = seq![(queues[i][k].1, Ok::<DeviceValue, Error>(queues[i][k].0))];
    if queue.len() == 0 {
        first_good_setting_wins(devs, idx + 1, queues, i, k);
        assert(all_refused(queues, idx, i) =~= all_refused(queues, idx + 1, i));
    } else if idx == i && k == 0 {
        assert(all_refused(queues, idx, i) + refused(queues[i].take(k)) + last =~= last);
    } else {
        let rest = queues.update(idx, queue.drop_first());
        assert(!devs.set@[idx].admits(queue[0].0)) by {
            if idx == i {
                assert(queues[i].take(k)[0] == queue[0]);
            }
        }
        assert forall|j: int| idx <= j < i implies none_good(devs, j, #[trigger] rest[j]) by {
            assert(none_good(devs, j, queues[j]));
            if j == idx {
                assert forall|m: int| 0 <= m < rest[j].len() implies !devs.set@[j].admits(
                    (#[trigger] rest[j][m]).0,
                ) by {
                    assert(rest[j][m] == queue[m + 1]);
                }
            }
        }
        let given = seq![(queue[0].1, Err::<DeviceValue, Error>(Error::TypeError))];
        if idx == i {
            assert forall|m: int| 0 <= m < k - 1 implies !devs.set@[i].admits(
                (#[trigger] rest[i].take(k - 1)[m]).0,
            ) by {
                assert(queues[i].take(k)[m + 1] == rest[i].take(k - 1)[m]);
            }
            first_good_setting_wins(devs, idx, rest, i, k - 1);
            assert(rest[i][k - 1] == queues[i][k]);
            assert(given + refused(rest[i].take(k - 1)) =~= refused(queues[i].take(k)));
            assert(given + (all_refused(rest, idx, i) + refused(rest[i].take(k - 1)) + last)
                =~= all_refused(queues, idx, i) + refused(queues[i].take(k)) + last);
        } else {
            assert(rest[i] == queues[i]);
            first_good_setting_wins(devs, idx, rest, i, k);
            only_the_first_queue_shrinks(idx, queues, i);
            assert(given + (all_refused(rest, idx, i) + refused(queues[i].take(k)) + last)
                =~= all_refused(queues, idx, i) + refused(queues[i].take(k)) + last);
        }
    }
}

/// The refusals of several queues begin with that of the first setting.
proof fn only_the_first_queue_shrinks<S>(idx: int, queues: Seq<Seq<Waiting<S>>>, to: int)
    requires
        0 <= idx < to <= queues.len(),
        queues[idx].len() > 0,
    ensures
        all_refused(queues, idx, to) == seq![
            (queues[idx][0].1, Err::<DeviceValue, Error>(Error::TypeError)),
        ] + all_refused(queues.update(idx, queues[idx].drop_first()), idx, to),
{
    let rest = queues.update(idx, queues[idx].drop_first());
    later_queues_decide(queues, rest, idx + 1, to);
    assert(refused(queues[idx]) =~= seq![
        (queues[idx][0].1, Err::<DeviceValue, Error>(Error::TypeError)),
    ] + refused(rest[idx]));
    assert(all_refused(queues, idx, to) =~= seq![
        (queues[idx][0].1, Err::<DeviceValue, Error>(Error::TypeError)),
    ] + all_refused(rest, idx, to));
}

/// The refusals depend on the queues in question alone.
proof fn later_queues_decide<S>(
    a: Seq<Seq<Waiting<S>>>,
    b: Seq<Seq<Waiting<S>>>,
    from: int,
    to: int,
)
    requires
        forall|j: int| from <= j < to ==> #[trigger] a[j] == b[j],
    ensures
        all_refused(a, from, to) == all_refused(b, from, to),
    decreases to - from,
{
    if from < to {
        later_queues_decide(a, b, from + 1, to);
    }
}

/// Where no device has a setting of its type, the round ends without a result,
/// and every setting has been refused with a type error, once.
pub proof fn bad_settings_are_all_refused<S>(devs: Devices, idx: int, queues: Seq<Seq<Waiting<S>>>)
    requires
        0 <= idx < devs.set@.len(),
        queues.len() == devs.set@.len(),
        forall|j: int| idx <= j < queues.len() ==> none_good(devs, j, #[trigger] queues[j]),
    ensures
        round(devs, idx, queues) == (
            PollAction::Pending,
            all_refused(queues, idx, queues.len() as int),
        ),
    decreases devs.set@.len() - idx, queues[idx].len(),
{
    let queue = queues[idx];
    let n = queues.len() as int;
    assert(devs.set@.len() == devs.set.len());
    if queue.len() == 0 {
        assert(all_refused(queues, idx, n) =~= all_refused(queues, idx + 1, n));
        if idx + 1 < n {
            bad_settings_are_all_refused(devs, idx + 1, queues);
        }
    } else {
        let rest = queues.update(idx, queue.drop_first());
        assert forall|j: int| idx <= j < rest.len() implies none_good(
            devs,
            j,
            #[trigger] rest[j],
        ) by {
            assert(none_good(devs, j, queues[j]));
            if j == idx {
                assert forall|m: int| 0 <= m < rest[j].len() implies !devs.set@[j].admits(
                    (#[trigger] rest[j][m]).0,
                ) by {
                    assert(rest[j][m] == queue[m + 1]);
                }
            }
        }
        assert(!devs.set@[idx].admits(queue[0].0));
        bad_settings_are_all_refused(devs, idx, rest);
        only_the_first_queue_shrinks(idx, queues, n);
    }
}

/// Whether each device belongs to the variable at its place: it takes the values of
/// the type that the variable's initial value has.
pub open spec fn belong(devs: Devices, vars: Seq<(Base, DeviceValue)>) -> bool {
    &&& devs.set@.len() == vars.len()
    &&& forall|i: int, v: DeviceValue|
        0 <= i < vars.len() ==> (#[trigger] devs.set@[i].admits(v) <==> vars[i].1.same_type(v))
}

/// Devices that are registered in the order of the variables belong to them: `sets`
/// are the devices at first and after each registration.
pub proof fn devices_belong_to_their_variables(sets: Seq<Devices>, vars: Seq<(Base, DeviceValue)>)
    requires
        sets.len() == vars.len() + 1,
        sets[0].set@.len() == 0,
        forall|i: int|
            0 <= i < vars.len() ==> joined(#[trigger] sets[i], sets[i + 1], vars[i].1),
    ensures
        belong(sets.last(), vars),
    decreases vars.len(),
{
    if vars.len() > 0 {
        let n = vars.len() - 1;
        let fewer = sets.drop_last();
        assert forall|i: int| 0 <= i < n implies joined(
            #[trigger] fewer[i],
            fewer[i + 1],
            vars.drop_last()[i].1,
        ) by {
            assert(joined(sets[i], sets[i + 1], vars[i].1));
        }
        devices_belong_to_their_variables(fewer, vars.drop_last());
        let before = sets[n];
        let after = sets.last();
        assert(joined(before, after, vars[n].1));
        assert forall|i: int, v: DeviceValue| 0 <= i < vars.len() implies (
        #[trigger] after.set@[i].admits(v) <==> vars[i].1.same_type(v)) by {
            if i < n {
                assert(after.set@.drop_last()[i] == after.set@[i]);
                assert(before.set@[i].admits(v) <==> vars.drop_last()[i].1.same_type(v));
            } else {
                assert(after.set@.last().admits(v) <==> vars[n].1.same_type(v));
            }
        }
    }
}

/// The initial value fixes the type of a device: a value of another type is
/// never the result of asking it.
pub proof fn devices_keep_their_type<S>(
    devs: Devices,
    idx: int,
    init_val: DeviceValue,
    event: PollEvent<S>,
)
    requires
        0 <= idx < devs.set@.len(),
        forall|v: DeviceValue| #[trigger] devs.set@[idx].admits(v) <==> init_val.same_type(v),
    ensures
        devs.after_asking(idx, event).action matches PollAction::Ready(i, v) ==> i == idx
            && init_val.same_type(v),
{
    assert(devs.set@.len() == devs.set.len());
}

} // verus!
