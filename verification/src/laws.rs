//! What holds of the loop whatever the driver reports.
//!
//! The laws speak of [`LoopModel`], the value that [`crate::check::CheckIP::step`]
//! moves along, so each of them holds of every run of the loop.

use crate::check::{ActionModel, EventModel, LoopModel, Outcome, PhaseModel, StepModel};
use crate::notify::{dispatch_plan, ChangeModel};
use crate::provider::{answers, first_answer, reading, ProviderFetchError, ResponseModel};
use vstd::prelude::*;

verus! {

/// The events of one lookup: a tick at `start`, followed by the response of
/// each provider in turn, `responses[k]` arriving at `times[k]`.
pub open spec fn lookup_events(start: nat, responses: Seq<ResponseModel>, times: Seq<nat>) -> Seq<
    (EventModel, nat),
> {
    seq![(EventModel::Tick, start)] + Seq::new(
        responses.len(),
        |k: int| (EventModel::Response(responses[k]), times[k]),
    )
}

/// The events of one round of notifications: the result of each delivery in
/// turn, `results[k]` arriving at `times[k]`.
pub open spec fn delivery_events(results: Seq<bool>, times: Seq<nat>) -> Seq<(EventModel, nat)> {
    Seq::new(results.len(), |k: int| (EventModel::Sent { delivered: results[k] }, times[k]))
}

/// Every step keeps the loop well formed.
pub proof fn step_keeps_well_formed(m: LoopModel, event: EventModel, now: nat)
    requires
        m.wf(),
    ensures
        m.advance(event, now).0.wf(),
{
}

/// A step changes neither the providers, nor the channels, nor the label, nor
/// the interval.
pub proof fn step_keeps_settings(m: LoopModel, event: EventModel, now: nat)
    ensures
        m.advance(event, now).0.providers == m.providers,
        m.advance(event, now).0.channels == m.channels,
        m.advance(event, now).0.client_label == m.client_label,
        m.advance(event, now).0.interval == m.interval,
{
}

/// The loop becomes initialized once and stays so: no step takes the stored
/// address away.
pub proof fn initialization_is_final(m: LoopModel, event: EventModel, now: nat)
    requires
        m.wf(),
        m.state.is_initialized,
    ensures
        m.advance(event, now).0.state.is_initialized,
        m.advance(event, now).0.state.last_snapshot is Some,
{
}

/// The loop becomes initialized in one way only: a provider answers while
/// nothing is stored.
pub proof fn initialization_needs_an_answer(m: LoopModel, event: EventModel, now: nat)
    requires
        m.wf(),
        !m.state.is_initialized,
        m.advance(event, now).0.state.is_initialized,
    ensures
        m.advance(event, now).1.outcome == Outcome::Initialized,
        m.phase is Fetching,
        event is Response,
        reading(m.providers[m.phase->provider], event->Response_0) is Ok,
{
}

/// The first address that a lookup gives is stored at once and nobody is
/// notified of it: the loop is idle again and the driver is told to wait.
pub proof fn first_address_is_stored_in_silence(
    m: LoopModel,
    provider: int,
    response: ResponseModel,
    ip: Seq<char>,
    now: nat,
)
    requires
        m.wf(),
        m.phase == (PhaseModel::Fetching { provider }),
        !m.state.is_initialized,
        reading(m.providers[provider], response) == Ok::<Seq<char>, ProviderFetchError>(ip),
    ensures
        m.advance(EventModel::Response(response), now) == m.close(
            m.state.stored(ip, now, m.interval),
            Outcome::Initialized,
        ),
        m.advance(EventModel::Response(response), now).1.action == ActionModel::Wait,
        m.advance(EventModel::Response(response), now).0.phase == PhaseModel::Idle,
        m.advance(EventModel::Response(response), now).0.state.is_initialized,
{
}

/// As long as the loop is not initialized, no step asks for a delivery.
pub proof fn no_delivery_before_initialization(m: LoopModel, event: EventModel, now: nat)
    requires
        m.wf(),
        !m.state.is_initialized,
    ensures
        !(m.advance(event, now).1.action is Send),
        !(m.advance(event, now).0.phase is Notifying),
{
}

/// A lookup that gives the stored address leads to no delivery and leaves the
/// stored address as it is: only the time of the next lookup moves.
pub proof fn stored_address_changes_nothing(
    m: LoopModel,
    provider: int,
    response: ResponseModel,
    now: nat,
)
    requires
        m.wf(),
        m.phase == (PhaseModel::Fetching { provider }),
        m.state.last_snapshot is Some,
        reading(m.providers[provider], response) == Ok::<Seq<char>, ProviderFetchError>(
            m.state.last_snapshot->0.value,
        ),
    ensures
        m.advance(EventModel::Response(response), now) == m.close(
            m.state.deferred(now, m.interval),
            Outcome::Unchanged,
        ),
        m.advance(EventModel::Response(response), now).1.action == ActionModel::Wait,
        m.advance(EventModel::Response(response), now).0.phase == PhaseModel::Idle,
        m.advance(EventModel::Response(response), now).0.state.last_snapshot
            == m.state.last_snapshot,
        m.advance(EventModel::Response(response), now).0.state.is_initialized
            == m.state.is_initialized,
{
}

/// The stored address changes in two places only: where the first address
/// arrives, and where the announcement of a change is over.
pub proof fn snapshot_moves_only_on_success(m: LoopModel, event: EventModel, now: nat)
    requires
        m.wf(),
        m.advance(event, now).0.state.last_snapshot != m.state.last_snapshot,
    ensures
        m.advance(event, now).0.phase == PhaseModel::Idle,
        m.advance(event, now).1.outcome == Outcome::Initialized || m.advance(
            event,
            now,
        ).1.outcome == Outcome::Changed || m.advance(event, now).1.outcome is Notified,
{
}

/// A response without an address leaves the stored address and the
/// initialization as they are, and leads to no delivery. After the last
/// provider the attempt is over and only the time of the next lookup has moved.
pub proof fn failed_response_keeps_the_state(
    m: LoopModel,
    provider: int,
    response: ResponseModel,
    now: nat,
)
    requires
        m.wf(),
        m.phase == (PhaseModel::Fetching { provider }),
        reading(m.providers[provider], response) is Err,
    ensures
        m.advance(EventModel::Response(response), now).0.state.last_snapshot
            == m.state.last_snapshot,
        m.advance(EventModel::Response(response), now).0.state.is_initialized
            == m.state.is_initialized,
        !(m.advance(EventModel::Response(response), now).1.action is Send),
        provider + 1 < m.providers.len() ==> m.advance(EventModel::Response(response), now)
            == m.proceed(
            PhaseModel::Fetching { provider: provider + 1 },
            Outcome::ProviderFailed(reading(m.providers[provider], response)->Err_0),
        ),
        provider + 1 == m.providers.len() ==> m.advance(EventModel::Response(response), now)
            == m.close(
            m.state.deferred(now, m.interval),
            Outcome::LookupFailed { last: Some(reading(m.providers[provider], response)->Err_0) },
        ),
{
}

/// Whether a delivery went through or failed makes no difference to what the
/// loop does next: the same state follows, and the same action.
pub proof fn failed_delivery_changes_nothing(m: LoopModel, now: nat)
    ensures
        m.advance(EventModel::Sent { delivered: false }, now).0 == m.advance(
            EventModel::Sent { delivered: true },
            now,
        ).0,
        m.advance(EventModel::Sent { delivered: false }, now).1.action == m.advance(
            EventModel::Sent { delivered: true },
            now,
        ).1.action,
{
}

/// A step either leaves the time of the next lookup alone or sets it to the
/// time of the step plus the interval; it does the latter exactly where it
/// ends an attempt. With a positive interval and a clock that has reached the
/// old time, the new time is later than the old one.
pub proof fn next_check_moves_forward(m: LoopModel, event: EventModel, now: nat)
    requires
        m.wf(),
    ensures
        ({
            let (next, step) = m.advance(event, now);
            let ends_attempt = next.phase == PhaseModel::Idle && step.outcome != Outcome::NotDue
                && step.outcome != Outcome::Ignored;
            &&& ends_attempt ==> next.state.next_allowed_check == now + m.interval
            &&& !ends_attempt ==> next.state.next_allowed_check == m.state.next_allowed_check
            &&& ends_attempt && m.interval > 0 && now >= m.state.next_allowed_check
                ==> next.state.next_allowed_check > m.state.next_allowed_check
        }),
{
}

/// The loop while it waits for provider number `provider`.
pub open spec fn fetching(m: LoopModel, provider: int) -> LoopModel {
    LoopModel { phase: PhaseModel::Fetching { provider }, ..m }
}

/// The loop while it waits for channel number `channel` to announce `event`.
pub open spec fn notifying(m: LoopModel, event: ChangeModel, channel: int) -> LoopModel {
    LoopModel { phase: PhaseModel::Notifying { event, channel }, ..m }
}

/// After the tick and `k` responses without an address, the loop waits for
/// provider number `k`, with its state untouched, and every answer so far
/// asked for a request.
proof fn lookup_reaches_provider(
    m: LoopModel,
    start: nat,
    responses: Seq<ResponseModel>,
    times: Seq<nat>,
    k: int,
)
    requires
        m.wf(),
        m.phase == PhaseModel::Idle,
        m.state.is_due(start),
        0 <= k < m.providers.len(),
        k <= responses.len() == times.len(),
        forall|j: int| 0 <= j < k ==> !answers(m.providers, responses, j),
    ensures
        m.run(lookup_events(start, responses, times).take(k + 1)).0 == fetching(m, k),
        m.run(lookup_events(start, responses, times).take(k + 1)).1.len() == k + 1,
        forall|j: int|
            0 <= j <= k ==> (#[trigger] m.run(
                lookup_events(start, responses, times).take(k + 1),
            ).1[j]).action is Query,
    decreases k,
{
    let events = lookup_events(start, responses, times);
    let prefix = events.take(k + 1);
    assert(prefix.drop_last() =~= events.take(k));
    assert(prefix.last() == events[k]);
    if k == 0 {
        assert(m.run(events.take(0)) == (m, Seq::<StepModel>::empty()));
    } else {
        lookup_reaches_provider(m, start, responses, times, k - 1);
        assert(!answers(m.providers, responses, k - 1));
        assert(events[k] == (EventModel::Response(responses[k - 1]), times[k - 1]));
    }
}

/// A lookup goes by the first answer. When provider number `i` is the first
/// whose response carries an address, the loop has asked the providers before
/// it in turn, with its state untouched, and goes on with that address as
/// [`LoopModel::confirm`] says, whatever the providers after it would have
/// sent.
pub proof fn lookup_follows_first_answer(
    m: LoopModel,
    start: nat,
    responses: Seq<ResponseModel>,
    times: Seq<nat>,
    i: int,
)
    requires
        m.wf(),
        m.phase == PhaseModel::Idle,
        m.state.is_due(start),
        responses.len() == times.len(),
        first_answer(m.providers, responses, i),
    ensures
        ({
            let events = lookup_events(start, responses, times).take(i + 2);
            let ip = reading(m.providers[i], responses[i])->Ok_0;
            let (last, steps) = m.run(events);
            &&& steps.len() == i + 2
            &&& forall|j: int| 0 <= j <= i ==> (#[trigger] steps[j]).action is Query
            &&& (last, steps[i + 1]) == fetching(m, i).confirm(ip, times[i])
        }),
{
    let events = lookup_events(start, responses, times);
    let prefix = events.take(i + 2);
    assert forall|j: int| 0 <= j < i implies !answers(m.providers, responses, j) by {}
    lookup_reaches_provider(m, start, responses, times, i);
    assert(prefix.drop_last() =~= events.take(i + 1));
    assert(prefix.last() == events[i + 1]);
    assert(events[i + 1] == (EventModel::Response(responses[i]), times[i]));
    let (before, steps) = m.run(events.take(i + 1));
    assert forall|j: int| 0 <= j <= i implies (#[trigger] m.run(prefix).1[j]).action is Query by {
        assert(m.run(prefix).1[j] == steps[j]);
    }
}

/// A lookup in which every provider fails ends the attempt with the stored
/// address and the initialization untouched: only the time of the next lookup
/// has moved. No answer on the way asks for a delivery.
pub proof fn failed_lookup_keeps_the_state(
    m: LoopModel,
    start: nat,
    responses: Seq<ResponseModel>,
    times: Seq<nat>,
)
    requires
        m.wf(),
        m.phase == PhaseModel::Idle,
        m.state.is_due(start),
        m.providers.len() > 0,
        responses.len() == m.providers.len(),
        times.len() == m.providers.len(),
        forall|i: int| !answers(m.providers, responses, i),
    ensures
        ({
            let n = m.providers.len() as int;
            let (last, steps) = m.run(lookup_events(start, responses, times));
            &&& steps.len() == n + 1
            &&& forall|j: int| 0 <= j < n ==> (#[trigger] steps[j]).action is Query
            &&& steps[n].action == ActionModel::Wait
            &&& steps[n].outcome is LookupFailed
            &&& last == LoopModel { state: m.state.deferred(times[n - 1], m.interval), ..m }
            &&& last.state.last_snapshot == m.state.last_snapshot
            &&& last.state.is_initialized == m.state.is_initialized
        }),
{
    let n = m.providers.len() as int;
    let events = lookup_events(start, responses, times);
    lookup_reaches_provider(m, start, responses, times, n - 1);
    assert(events.take(n + 1) =~= events);
    assert(events.drop_last() =~= events.take(n));
    assert(events.last() == (EventModel::Response(responses[n - 1]), times[n - 1]));
    assert(!answers(m.providers, responses, n - 1));
    let (before, steps) = m.run(events.take(n));
    assert forall|j: int| 0 <= j < n implies (#[trigger] m.run(events).1[j]).action is Query by {
        assert(m.run(events).1[j] == steps[j]);
    }
}

/// After `k` deliveries the loop waits for channel number `k`, with its state
/// untouched, and each answer so far asked for the delivery on the next
/// channel.
proof fn announcement_reaches_channel(
    m: LoopModel,
    event: ChangeModel,
    results: Seq<bool>,
    times: Seq<nat>,
    k: int,
)
    requires
        m.wf(),
        m.phase == (PhaseModel::Notifying { event, channel: 0 }),
        0 <= k < m.channels.len(),
        k <= results.len() == times.len(),
    ensures
        m.run(delivery_events(results, times).take(k)).0 == notifying(m, event, k),
        m.run(delivery_events(results, times).take(k)).1.len() == k,
        forall|j: int|
            0 <= j < k ==> (#[trigger] m.run(delivery_events(results, times).take(k)).1[j]).action
                == ActionModel::Send(dispatch_plan(event, m.channels)[j + 1]),
    decreases k,
{
    let events = delivery_events(results, times);
    if k == 0 {
        assert(m.run(events.take(0)) == (m, Seq::<StepModel>::empty()));
    } else {
        let prefix = events.take(k);
        assert(prefix.drop_last() =~= events.take(k - 1));
        assert(prefix.last() == events[k - 1]);
        announcement_reaches_channel(m, event, results, times, k - 1);
    }
}

/// A change reaches every channel. From the step that asked for the delivery
/// on the first channel, and whichever deliveries fail, each answer asks for
/// the delivery on the next channel, made of the same event, until every
/// channel has had exactly one; the address of the event is stored only after
/// the last of them.
pub proof fn change_reaches_every_channel(
    m: LoopModel,
    event: ChangeModel,
    results: Seq<bool>,
    times: Seq<nat>,
)
    requires
        m.wf(),
        m.phase == (PhaseModel::Notifying { event, channel: 0 }),
        results.len() == m.channels.len(),
        times.len() == m.channels.len(),
    ensures
        ({
            let n = m.channels.len() as int;
            let (last, steps) = m.run(delivery_events(results, times));
            &&& m.current_action() == ActionModel::Send(dispatch_plan(event, m.channels)[0])
            &&& steps.len() == n
            &&& forall|j: int|
                0 <= j < n - 1 ==> (#[trigger] steps[j]).action == ActionModel::Send(
                    dispatch_plan(event, m.channels)[j + 1],
                )
            &&& forall|k: int|
                0 <= k < n ==> m.run(#[trigger] delivery_events(results, times).take(k)).0
                    == notifying(m, event, k)
            &&& steps[n - 1].action == ActionModel::Wait
            &&& last == LoopModel {
                state: m.state.stored(event.current, times[n - 1], m.interval),
                phase: PhaseModel::Idle,
                ..m
            }
        }),
{
    let n = m.channels.len() as int;
    let events = delivery_events(results, times);
    announcement_reaches_channel(m, event, results, times, n - 1);
    assert(events.drop_last() =~= events.take(n - 1));
    assert(events.last() == (EventModel::Sent { delivered: results[n - 1] }, times[n - 1]));
    let (before, steps) = m.run(events.take(n - 1));
    assert forall|j: int| 0 <= j < n - 1 implies (#[trigger] m.run(events).1[j]).action
        == ActionModel::Send(dispatch_plan(event, m.channels)[j + 1]) by {
        assert(m.run(events).1[j] == steps[j]);
    }
    assert forall|k: int| 0 <= k < n implies m.run(#[trigger] events.take(k)).0 == notifying(
        m,
        event,
        k,
    ) by {
        announcement_reaches_channel(m, event, results, times, k);
    }
}

/// A lookup that gives another address than the stored one starts the
/// announcement: the event carries the stored address as the previous one and
/// the new address as the current one, the first channel is served at once,
/// and the state stays as it is until every channel has been served.
pub proof fn changed_address_starts_the_announcement(
    m: LoopModel,
    provider: int,
    response: ResponseModel,
    ip: Seq<char>,
    now: nat,
)
    requires
        m.wf(),
        m.phase == (PhaseModel::Fetching { provider }),
        m.state.last_snapshot is Some,
        m.state.last_snapshot->0.value != ip,
        m.channels.len() > 0,
        reading(m.providers[provider], response) == Ok::<Seq<char>, ProviderFetchError>(ip),
    ensures
        ({
            let event = ChangeModel {
                previous: Some(m.state.last_snapshot->0.value),
                current: ip,
                client_label: m.client_label,
            };
            let (next, step) = m.advance(EventModel::Response(response), now);
            &&& next == notifying(m, event, 0)
            &&& next.wf()
            &&& step.action == ActionModel::Send(dispatch_plan(event, m.channels)[0])
            &&& step.outcome == Outcome::Changed
        }),
{
}

/// A run may be cut in two: the second part starts where the first one ended,
/// and the answers follow one another.
pub proof fn run_splits(
    m: LoopModel,
    first: Seq<(EventModel, nat)>,
    second: Seq<(EventModel, nat)>,
)
    ensures
        m.run(first + second).0 == m.run(first).0.run(second).0,
        m.run(first + second).1 == m.run(first).1 + m.run(first).0.run(second).1,
    decreases second.len(),
{
    if second.len() == 0 {
        assert(first + second =~= first);
        assert(m.run(first).1 + Seq::<StepModel>::empty() =~= m.run(first).1);
    } else {
        let whole = first + second;
        assert(whole.drop_last() =~= first + second.drop_last());
        assert(whole.last() == second.last());
        run_splits(m, first, second.drop_last());
        let middle = m.run(first).0;
        let (before, steps) = middle.run(second.drop_last());
        let step = before.advance(second.last().0, second.last().1).1;
        assert(m.run(whole).1 =~= m.run(first).1 + steps.push(step));
    }
}

/// A change of address, from the response that brings it to the state that
/// holds it. When the stored address is `previous` and a provider answers with
/// another address, every channel is handed exactly one delivery, in the
/// order of the channels, each made of the event that carries `previous` and
/// the new address; this holds whichever deliveries fail. Only after the last
/// of them the new address is stored.
pub proof fn change_is_announced_and_stored(
    m: LoopModel,
    provider: int,
    response: ResponseModel,
    ip: Seq<char>,
    now: nat,
    results: Seq<bool>,
    times: Seq<nat>,
)
    requires
        m.wf(),
        m.phase == (PhaseModel::Fetching { provider }),
        m.state.last_snapshot is Some,
        m.state.last_snapshot->0.value != ip,
        reading(m.providers[provider], response) == Ok::<Seq<char>, ProviderFetchError>(ip),
        m.channels.len() > 0,
        results.len() == m.channels.len(),
        times.len() == m.channels.len(),
    ensures
        ({
            let n = m.channels.len() as int;
            let event = ChangeModel {
                previous: Some(m.state.last_snapshot->0.value),
                current: ip,
                client_label: m.client_label,
            };
            let events = seq![(EventModel::Response(response), now)] + delivery_events(
                results,
                times,
            );
            let (last, steps) = m.run(events);
            &&& steps.len() == n + 1
            &&& forall|k: int|
                0 <= k < n ==> (#[trigger] steps[k]).action == ActionModel::Send(
                    dispatch_plan(event, m.channels)[k],
                )
            &&& steps[n].action == ActionModel::Wait
            &&& last.phase == PhaseModel::Idle
            &&& last.state == m.state.stored(ip, times[n - 1], m.interval)
        }),
{
    let n = m.channels.len() as int;
    let event = ChangeModel {
        previous: Some(m.state.last_snapshot->0.value),
        current: ip,
        client_label: m.client_label,
    };
    let head = seq![(EventModel::Response(response), now)];
    let rest = delivery_events(results, times);
    changed_address_starts_the_announcement(m, provider, response, ip, now);
    assert(head.drop_last() =~= Seq::<(EventModel, nat)>::empty());
    assert(m.run(head.drop_last()) == (m, Seq::<StepModel>::empty()));
    assert(head.last() == (EventModel::Response(response), now));
    let started = notifying(m, event, 0);
    assert(m.run(head).0 == started);
    assert(m.run(head).1 =~= seq![m.advance(EventModel::Response(response), now).1]);
    change_reaches_every_channel(started, event, results, times);
    run_splits(m, head, rest);
    let steps = m.run(head + rest).1;
    let later = started.run(rest).1;
    assert forall|k: int| 0 <= k < n implies (#[trigger] steps[k]).action == ActionModel::Send(
        dispatch_plan(event, m.channels)[k],
    ) by {
        if k > 0 {
            assert(steps[k] == later[k - 1]);
        }
    }
    assert(steps[n] == later[n - 1]);
}

} // verus!
