//! Properties of a run, proved over the transition relation that
//! `Driver::step` follows.

use vstd::prelude::*;
use crate::scan::{Probe, is_first_match, qualifies};
use crate::toggle::{TOGGLE_INTERVAL_MS, payload_at};
use crate::driver::{Action, Event, Fatal, Phase, SERVICE_POLL_MS, transition};

verus! {

/// The phase while the `n`-th write of the toggling, counting from zero, is
/// under way.
pub open spec fn toggling_after(n: nat) -> Phase {
    Phase::Toggling { sent_on: n % 2 == 1 }
}

/// A device that does not advertise the wanted UUID, or that could not be
/// read, is never the one selected.
pub proof fn lemma_only_advertisers_selected(pass: Vec<Probe>, q: Phase, a: Action)
    requires
        transition(Phase::Scanning, Event::Devices(Ok(pass)), q, a),
    ensures
        a is Connect ==> qualifies(pass@[a->device as int]),
        forall|j: int|
            0 <= j < pass@.len() && !#[trigger] qualifies(pass@[j]) ==> !(a matches Action::Connect {
                device,
                timeout_ms: _,
            } && device == j),
{
}

/// When several devices of one pass qualify, the first of them in the
/// adapter's order is selected.
pub proof fn lemma_first_advertiser_selected(pass: Vec<Probe>, i: int, q: Phase, a: Action)
    requires
        transition(Phase::Scanning, Event::Devices(Ok(pass)), q, a),
        0 <= i < pass@.len(),
        qualifies(pass@[i]),
        forall|j: int| 0 <= j < i ==> !#[trigger] qualifies(pass@[j]),
    ensures
        q == Phase::Connecting,
        a is Connect,
        a->device == i,
{
    if a is Connect {
        let d = a->device as int;
        assert(is_first_match(pass@, d));
        if d < i {
            assert(!qualifies(pass@[d]));
        } else if d > i {
            assert(!qualifies(pass@[i]));
        }
    } else {
        assert(!qualifies(pass@[i]));
    }
}

/// A device whose properties could not be read does not end the scan: a
/// pass that was listed never fails the run, and a qualifying device after
/// unreadable ones is still reached.
pub proof fn lemma_unreadable_device_skipped(pass: Vec<Probe>, k: int, q: Phase, a: Action)
    requires
        transition(Phase::Scanning, Event::Devices(Ok(pass)), q, a),
        0 <= k < pass@.len(),
        qualifies(pass@[k]),
    ensures
        q != Phase::Failed,
        !(a is Fail),
        a is Connect,
        a->device <= k,
{
    if a is Connect {
        if a->device > k {
            assert(!qualifies(pass@[k]));
        }
    } else {
        assert(!qualifies(pass@[k]));
    }
}

/// Listing the devices successfully never fails the run, whatever the pass
/// holds.
pub proof fn lemma_listed_pass_never_fails(pass: Vec<Probe>, q: Phase, a: Action)
    requires
        transition(Phase::Scanning, Event::Devices(Ok(pass)), q, a),
    ensures
        q == Phase::Scanning || q == Phase::Connecting,
        !(a is Fail),
{
}

/// The run leaves the wait for services only once the device reports at
/// least one service, and then goes on with the first of them; while none
/// is reported it asks again after the polling interval.
pub proof fn lemma_waits_for_services(e: Event, q: Phase, a: Action)
    requires
        transition(Phase::WaitingForServices, e, q, a),
    ensures
        q == Phase::ListingCharacteristics ==> (e matches Event::Services(Ok(svcs)) && svcs@.len()
            > 0 && a == (Action::WalkService { service: svcs@[0] })),
        e matches Event::Services(Ok(svcs)) && svcs@.len() == 0 ==> (q
            == Phase::WaitingForServices && a == (Action::ListServices {
            delay_ms: SERVICE_POLL_MS,
        })),
        q == Phase::WaitingForServices || q == Phase::ListingCharacteristics || q
            == Phase::Failed,
{
}

/// Toggling starts with the first payload of the alternation, right away.
pub proof fn lemma_toggling_starts(q: Phase, a: Action)
    requires
        transition(Phase::ListingDescriptors, Event::Descriptors(Ok(())), q, a),
    ensures
        q == toggling_after(0),
        a matches Action::Write { payload, delay_ms } && payload@ == payload_at(0) && delay_ms
            == 0,
{
}

/// After a successful `n`-th write the `n + 1`-th follows, one interval
/// later, with the payload that its position fixes: the run never ends on
/// its own while writes succeed.
pub proof fn lemma_toggle_step(n: nat, q: Phase, a: Action)
    requires
        transition(toggling_after(n), Event::Written(Ok(())), q, a),
    ensures
        q == toggling_after(n + 1),
        a matches Action::Write { payload, delay_ms } && payload@ == payload_at(n + 1) && delay_ms
            == TOGGLE_INTERVAL_MS,
{
}

/// Over any number of successful writes the payloads alternate between the
/// two fixed ones without drift: write `k` carries `payload_at(k)`.
pub proof fn lemma_toggle_run(qs: Seq<Phase>, acts: Seq<Action>)
    requires
        qs.len() == acts.len(),
        qs.len() > 0,
        transition(Phase::ListingDescriptors, Event::Descriptors(Ok(())), qs[0], acts[0]),
        forall|k: int|
            0 <= k < qs.len() - 1 ==> #[trigger] transition(
                qs[k],
                Event::Written(Ok(())),
                qs[k + 1],
                acts[k + 1],
            ),
    ensures
        forall|k: int|
            0 <= k < qs.len() ==> #[trigger] qs[k] == toggling_after(k as nat) && (
            acts[k] matches Action::Write { payload, delay_ms: _ } && payload@ == payload_at(
                k as nat,
            )),
    decreases qs.len(),
{
    if qs.len() == 1 {
        lemma_toggling_starts(qs[0], acts[0]);
    } else {
        let n = (qs.len() - 1) as int;
        let qs0 = qs.subrange(0, n);
        let acts0 = acts.subrange(0, n);
        assert forall|k: int| 0 <= k < qs0.len() - 1 implies #[trigger] transition(
            qs0[k],
            Event::Written(Ok(())),
            qs0[k + 1],
            acts0[k + 1],
        ) by {
            assert(transition(qs[k], Event::Written(Ok(())), qs[k + 1], acts[k + 1]));
        }
        lemma_toggle_run(qs0, acts0);
        assert(qs0[n - 1] == toggling_after((n - 1) as nat));
        let last = n - 1;
        assert(transition(qs[last], Event::Written(Ok(())), qs[last + 1], acts[last + 1]));
        lemma_toggle_step(last as nat, qs[n], acts[n]);
        assert forall|k: int| 0 <= k < qs.len() implies #[trigger] qs[k] == toggling_after(
            k as nat,
        ) && (acts[k] matches Action::Write { payload, delay_ms: _ } && payload@ == payload_at(
            k as nat,
        )) by {
            if k < n {
                assert(qs0[k] == qs[k]);
                assert(acts0[k] == acts[k]);
            }
        }
    }
}

/// A failed write ends the run with that write's error.
pub proof fn lemma_write_failure_fatal(sent_on: bool, m: String, q: Phase, a: Action)
    requires
        transition(Phase::Toggling { sent_on }, Event::Written(Err(m)), q, a),
    ensures
        q == Phase::Failed,
        a == Action::Fail(Fatal::Bluetooth(m)),
{
}

/// A device rejected in one pass is judged afresh in the next: once it
/// advertises the wanted UUID, and no device before it does, it is
/// selected.
pub proof fn lemma_rejection_forgotten(
    first: Vec<Probe>,
    second: Vec<Probe>,
    i: int,
    q1: Phase,
    a1: Action,
    q2: Phase,
    a2: Action,
)
    requires
        transition(Phase::Scanning, Event::Devices(Ok(first)), q1, a1),
        !(a1 is Connect),
        transition(q1, Event::Devices(Ok(second)), q2, a2),
        0 <= i < second@.len(),
        qualifies(second@[i]),
        forall|j: int| 0 <= j < i ==> !#[trigger] qualifies(second@[j]),
    ensures
        a2 is Connect,
        a2->device == i,
{
    lemma_first_advertiser_selected(second, i, q2, a2);
}

} // verus!
