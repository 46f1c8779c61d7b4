//! The monitoring loop, as a machine that is told what happened and answers
//! with what to do next.
//!
//! A driver owns the clock and the network. It starts with [`Event::Tick`],
//! hands each event to [`CheckIP::step`] together with the current time,
//! carries out the [`Action`] that comes back and reports its result as the
//! next event:
//!
//! * [`Action::Wait`]: sleep for [`TICK_SECS`], report [`Event::Tick`];
//! * [`Action::Query`]: send the GET request, report [`Event::Response`];
//! * [`Action::Send`]: attempt the delivery, report [`Event::Sent`].
//!
//! Within one attempt the lookup comes first, the comparison second, the
//! notifications third, and the state is written last.

use crate::config::Config;
use crate::monitor::{Assessment, AssessmentModel, MonitorModel, MonitorState};
use crate::notify::{
    channel_models, delivery_for, text_of, ChangeEvent, ChangeModel, ChannelModel, Delivery,
    DeliveryModel, NotificationChannel,
};
use crate::provider::{
    answers, default_list, default_providers, first_answer, provider_models, read_ip, reading,
    resolve, response_models, AllProvidersFailed, ProviderDescriptor, ProviderFetchError,
    ProviderModel, ProviderResponse, ResponseModel, FETCH_TIMEOUT_SECS,
};
use vstd::prelude::*;

verus! {

/// Seconds that the driver sleeps on [`Action::Wait`].
pub const TICK_SECS: u64 = 1;

/// What the driver reports.
#[derive(Clone, Debug, PartialEq, Eq)]
pub enum Event {
    /// The loop starts, or a wait is over.
    Tick,
    /// The request of the last [`Action::Query`] ended like this.
    Response(ProviderResponse),
    /// The delivery of the last [`Action::Send`] was attempted; `delivered`
    /// tells whether it went through.
    Sent { delivered: bool },
}

/// The mathematical value of an [`Event`].
pub enum EventModel {
    Tick,
    Response(ResponseModel),
    Sent { delivered: bool },
}

impl View for Event {
    type V = EventModel;

    open spec fn view(&self) -> EventModel {
        match *self {
            Event::Tick => EventModel::Tick,
            Event::Response(response) => EventModel::Response(response@),
            Event::Sent { delivered } => EventModel::Sent { delivered },
        }
    }
}

/// One GET request: where to send it, and the seconds after which it counts
/// as timed out.
#[derive(Clone, Debug, PartialEq, Eq)]
pub struct Request {
    pub endpoint: String,
    pub timeout_secs: u64,
}

/// The mathematical value of a [`Request`].
pub struct RequestModel {
    pub endpoint: Seq<char>,
    pub timeout_secs: u64,
}

impl View for Request {
    type V = RequestModel;

    open spec fn view(&self) -> RequestModel {
        RequestModel { endpoint: self.endpoint@, timeout_secs: self.timeout_secs }
    }
}

/// What the driver is to do next.
#[derive(Clone, Debug, PartialEq, Eq)]
pub enum Action {
    /// Sleep for one tick.
    Wait,
    /// Ask a provider.
    Query(Request),
    /// Attempt a delivery.
    Send(Delivery),
}

/// The mathematical value of an [`Action`].
pub enum ActionModel {
    Wait,
    Query(RequestModel),
    Send(DeliveryModel),
}

impl View for Action {
    type V = ActionModel;

    open spec fn view(&self) -> ActionModel {
        match *self {
            Action::Wait => ActionModel::Wait,
            Action::Query(request) => ActionModel::Query(request@),
            Action::Send(delivery) => ActionModel::Send(delivery@),
        }
    }
}

/// What a step found, for the driver's log.
#[derive(Clone, Copy, Debug, PartialEq, Eq)]
pub enum Outcome {
    /// The interval has not passed yet.
    NotDue,
    /// A lookup began with the first provider.
    LookupStarted,
    /// A provider failed and the next one is asked.
    ProviderFailed(ProviderFetchError),
    /// No provider gave an address: the attempt is over. `last` is the failure
    /// of the last provider, or `None` where the list of providers is empty.
    LookupFailed { last: Option<ProviderFetchError> },
    /// The first address was stored. Nobody is notified of it.
    Initialized,
    /// The address is the stored one.
    Unchanged,
    /// The address differs from the stored one.
    Changed,
    /// A delivery was attempted.
    Notified { delivered: bool },
    /// The event does not belong to what the loop is waiting for.
    Ignored,
}

/// The answer to one event.
#[derive(Clone, Debug, PartialEq, Eq)]
pub struct Step {
    pub action: Action,
    pub outcome: Outcome,
}

/// The mathematical value of a [`Step`].
pub struct StepModel {
    pub action: ActionModel,
    pub outcome: Outcome,
}

impl View for Step {
    type V = StepModel;

    open spec fn view(&self) -> StepModel {
        StepModel { action: self.action@, outcome: self.outcome }
    }
}

/// What the loop is waiting for.
pub enum PhaseModel {
    /// Nothing is under way: the next tick decides.
    Idle,
    /// The response of provider number `provider`.
    Fetching { provider: int },
    /// The result of announcing `event` on channel number `channel`.
    Notifying { event: ChangeModel, channel: int },
}

/// The mathematical value of a [`CheckIP`].
pub struct LoopModel {
    pub providers: Seq<ProviderModel>,
    pub channels: Seq<ChannelModel>,
    pub client_label: Option<Seq<char>>,
    pub interval: nat,
    pub state: MonitorModel,
    pub phase: PhaseModel,
}

impl LoopModel {
    /// The stored state is well formed, the provider or channel that is waited
    /// for exists, and a change is announced only once an address is stored.
    pub open spec fn wf(self) -> bool {
        &&& self.state.wf()
        &&& match self.phase {
            PhaseModel::Idle => true,
            PhaseModel::Fetching { provider } => 0 <= provider < self.providers.len(),
            PhaseModel::Notifying { event, channel } => 0 <= channel < self.channels.len()
                && self.state.is_initialized,
        }
    }

    /// The loop before its first tick.
    pub open spec fn initial(
        providers: Seq<ProviderModel>,
        channels: Seq<ChannelModel>,
        client_label: Option<Seq<char>>,
        interval: nat,
    ) -> LoopModel {
        LoopModel {
            providers,
            channels,
            client_label,
            interval,
            state: MonitorModel::initial(),
            phase: PhaseModel::Idle,
        }
    }

    /// The request that asks `provider`.
    pub open spec fn request_for(provider: ProviderModel) -> RequestModel {
        RequestModel { endpoint: provider.endpoint, timeout_secs: FETCH_TIMEOUT_SECS }
    }

    /// The action whose result the loop is waiting for.
    pub open spec fn current_action(self) -> ActionModel {
        match self.phase {
            PhaseModel::Idle => ActionModel::Wait,
            PhaseModel::Fetching { provider } => ActionModel::Query(
                Self::request_for(self.providers[provider]),
            ),
            PhaseModel::Notifying { event, channel } => ActionModel::Send(
                delivery_for(event, self.channels[channel]),
            ),
        }
    }

    /// The attempt is over: the loop is idle again, with `state` as its state,
    /// and the driver waits.
    pub open spec fn close(self, state: MonitorModel, outcome: Outcome) -> (LoopModel, StepModel) {
        (
            LoopModel { state, phase: PhaseModel::Idle, ..self },
            StepModel { action: ActionModel::Wait, outcome },
        )
    }

    /// The attempt goes on: the loop waits for the result of the action that
    /// belongs to `phase`.
    pub open spec fn proceed(self, phase: PhaseModel, outcome: Outcome) -> (LoopModel, StepModel) {
        let next = LoopModel { phase, ..self };
        (next, StepModel { action: next.current_action(), outcome })
    }

    /// A tick while idle. Before the time of the next lookup nothing happens.
    /// From that time on a lookup begins with the first provider.
    pub open spec fn tick(self, now: nat) -> (LoopModel, StepModel) {
        if !self.state.is_due(now) {
            self.close(self.state, Outcome::NotDue)
        } else if self.providers.len() == 0 {
            self.close(
                self.state.deferred(now, self.interval),
                Outcome::LookupFailed { last: None },
            )
        } else {
            self.proceed(PhaseModel::Fetching { provider: 0 }, Outcome::LookupStarted)
        }
    }

    /// The response of provider number `provider`. A response without an
    /// address passes the lookup on to the next provider, and closes the attempt
    /// with the state untouched where there is none. A response with an address
    /// ends the lookup.
    pub open spec fn reply(self, provider: int, response: ResponseModel, now: nat) -> (
        LoopModel,
        StepModel,
    ) {
        match reading(self.providers[provider], response) {
            Err(error) => if provider + 1 < self.providers.len() {
                self.proceed(
                    PhaseModel::Fetching { provider: provider + 1 },
                    Outcome::ProviderFailed(error),
                )
            } else {
                self.close(
                    self.state.deferred(now, self.interval),
                    Outcome::LookupFailed { last: Some(error) },
                )
            },
            Ok(ip) => self.confirm(ip, now),
        }
    }

    /// A lookup gave `ip`. The first address is stored in silence, the stored
    /// address only moves the time of the next lookup, and another address is
    /// announced on every channel before it is stored.
    pub open spec fn confirm(self, ip: Seq<char>, now: nat) -> (LoopModel, StepModel) {
        match self.state.assessment(ip, self.client_label) {
            AssessmentModel::First => self.close(
                self.state.stored(ip, now, self.interval),
                Outcome::Initialized,
            ),
            AssessmentModel::Unchanged => self.close(
                self.state.deferred(now, self.interval),
                Outcome::Unchanged,
            ),
            AssessmentModel::Changed(event) => if self.channels.len() == 0 {
                self.close(self.state.stored(ip, now, self.interval), Outcome::Changed)
            } else {
                self.proceed(PhaseModel::Notifying { event, channel: 0 }, Outcome::Changed)
            },
        }
    }

    /// The delivery on channel number `channel` was attempted. Whether it went
    /// through or not, the next channel is served, and after the last one the
    /// new address is stored.
    pub open spec fn sent(self, event: ChangeModel, channel: int, delivered: bool, now: nat) -> (
        LoopModel,
        StepModel,
    ) {
        if channel + 1 < self.channels.len() {
            self.proceed(
                PhaseModel::Notifying { event, channel: channel + 1 },
                Outcome::Notified { delivered },
            )
        } else {
            self.close(
                self.state.stored(event.current, now, self.interval),
                Outcome::Notified { delivered },
            )
        }
    }

    /// One step of the loop: the state after `event` arrived at `now`, and the
    /// answer to the driver. An event that the loop is not waiting for changes
    /// nothing and is answered with the action that is still under way.
    pub open spec fn advance(self, event: EventModel, now: nat) -> (LoopModel, StepModel) {
        match (self.phase, event) {
            (PhaseModel::Idle, EventModel::Tick) => self.tick(now),
            (PhaseModel::Fetching { provider }, EventModel::Response(response)) => self.reply(
                provider,
                response,
                now,
            ),
            (
                PhaseModel::Notifying { event: change, channel },
                EventModel::Sent { delivered },
            ) => self.sent(change, channel, delivered, now),
            _ => (self, StepModel { action: self.current_action(), outcome: Outcome::Ignored }),
        }
    }

    /// The loop after a series of events, each with its time of arrival, and
    /// the answers that the driver got, in the same order.
    pub open spec fn run(self, events: Seq<(EventModel, nat)>) -> (LoopModel, Seq<StepModel>)
        decreases events.len(),
    {
        if events.len() == 0 {
            (self, Seq::empty())
        } else {
            let (before, steps) = self.run(events.drop_last());
            let (after, step) = before.advance(events.last().0, events.last().1);
            (after, steps.push(step))
        }
    }
}

/// Which kind of result the loop is waiting for.
#[derive(Clone, Copy)]
enum Stage {
    Idle,
    Fetching,
    Notifying,
}

/// The monitoring loop.
pub struct CheckIP {
    providers: Vec<ProviderDescriptor>,
    channels: Vec<NotificationChannel>,
    client_label: Option<String>,
    interval: u64,
    state: MonitorState,
    stage: Stage,
    /// The provider or channel that is waited for.
    cursor: usize,
    /// The change that is being announced.
    event: Option<ChangeEvent>,
}

impl View for CheckIP {
    type V = LoopModel;

    closed spec fn view(&self) -> LoopModel {
        LoopModel {
            providers: provider_models(self.providers@),
            channels: channel_models(self.channels@),
            client_label: text_of(self.client_label),
            interval: self.interval as nat,
            state: self.state@,
            phase: match self.stage {
                Stage::Idle => PhaseModel::Idle,
                Stage::Fetching => PhaseModel::Fetching { provider: self.cursor as int },
                Stage::Notifying => PhaseModel::Notifying {
                    event: self.event->0@,
                    channel: self.cursor as int,
                },
            },
        }
    }
}

impl CheckIP {
    #[verifier::type_invariant]
    spec fn valid(self) -> bool {
        &&& self.state@.wf()
        &&& match self.stage {
            Stage::Idle => true,
            Stage::Fetching => self.cursor < self.providers.len(),
            Stage::Notifying => self.cursor < self.channels.len() && self.event is Some
                && self.state@.is_initialized,
        }
    }

    /// The loop before its first tick, with the default providers.
    pub fn new(config: Config) -> (machine: CheckIP)
        ensures
            machine@ == LoopModel::initial(
                default_list(),
                config@.channels,
                config@.client_label,
                config@.interval,
            ),
            machine@.wf(),
    {
        Self::with_providers(config, default_providers())
    }

    /// The loop before its first tick, with providers of the caller's choice.
    pub fn with_providers(config: Config, providers: Vec<ProviderDescriptor>) -> (machine: CheckIP)
        ensures
            machine@ == LoopModel::initial(
                provider_models(providers@),
                config@.channels,
                config@.client_label,
                config@.interval,
            ),
            machine@.wf(),
    {
        CheckIP {
            providers,
            channels: config.channels,
            client_label: config.client_label,
            interval: config.interval,
            state: MonitorState::new(),
            stage: Stage::Idle,
            cursor: 0,
            event: None,
        }
    }

    /// Runs one lookup against the default providers over responses that are
    /// already at hand: `responses[i]` is what provider `i` sent. The result is
    /// the address of the first provider that answers, or the one error for
    /// the whole lookup where none does.
    pub fn check(responses: &Vec<ProviderResponse>) -> (fetched: Result<String, AllProvidersFailed>)
        ensures
            match fetched {
                Ok(ip) => exists|i: int|
                    first_answer(default_list(), response_models(responses@), i) && reading(
                        default_list()[i],
                        responses[i]@,
                    ) == Ok::<Seq<char>, ProviderFetchError>(ip@),
                Err(_) => forall|i: int| !answers(default_list(), response_models(responses@), i),
            },
    {
        let providers = default_providers();
        resolve(&providers, responses)
    }

    /// The least number of seconds between two lookups.
    pub fn interval(&self) -> (interval: u64)
        ensures
            interval == self@.interval,
    {
        self.interval
    }

    /// What the loop remembers between lookups.
    pub fn state(&self) -> (state: &MonitorState)
        ensures
            state@ == self@.state,
    {
        &self.state
    }

    /// Takes one event, together with the time at which it arrived, and says
    /// what to do next. The loop moves as [`LoopModel::advance`] defines.
    ///
    /// The time of the next lookup must fit the clock.
    pub fn step(&mut self, event: Event, now: u64) -> (step: Step)
        requires
            now + old(self)@.interval <= u64::MAX,
        ensures
            (final(self)@, step@) == old(self)@.advance(event@, now as nat),
            final(self)@.wf(),
    {
        proof {
            use_type_invariant(&*self);
        }
        match self.stage {
            Stage::Idle => match event {
                Event::Tick => self.tick(now),
                _ => Step { action: Action::Wait, outcome: Outcome::Ignored },
            },
            Stage::Fetching => match event {
                Event::Response(response) => self.reply(&response, now),
                _ => Step {
                    action: Action::Query(self.request(self.cursor)),
                    outcome: Outcome::Ignored,
                },
            },
            Stage::Notifying => match event {
                Event::Sent { delivered } => self.sent(delivered, now),
                _ => Step { action: Action::Send(self.delivery(self.cursor)), outcome: Outcome::Ignored },
            },
        }
    }

    fn request(&self, provider: usize) -> (request: Request)
        requires
            provider < self.providers.len(),
        ensures
            request@ == LoopModel::request_for(self@.providers[provider as int]),
    {
        Request {
            endpoint: self.providers[provider].endpoint.clone(),
            timeout_secs: FETCH_TIMEOUT_SECS,
        }
    }

    fn delivery(&self, channel: usize) -> (delivery: Delivery)
        requires
            channel < self.channels.len(),
            self.event is Some,
        ensures
            delivery@ == delivery_for(self.event->0@, self@.channels[channel as int]),
    {
        self.channels[channel].deliver(self.announced())
    }

    fn announced(&self) -> (event: &ChangeEvent)
        requires
            self.event is Some,
        ensures
            Some(*event) == self.event,
    {
        match &self.event {
            Some(event) => event,
            None => unreached(),
        }
    }

    fn tick(&mut self, now: u64) -> (step: Step)
        requires
            old(self).stage is Idle,
            now + old(self).interval <= u64::MAX,
        ensures
            (final(self)@, step@) == old(self)@.tick(now as nat),
            final(self)@.wf(),
    {
        proof {
            use_type_invariant(&*self);
        }
        if !self.state.is_due(now) {
            Step { action: Action::Wait, outcome: Outcome::NotDue }
        } else if self.providers.len() == 0 {
            self.state.defer(now, self.interval);
            Step { action: Action::Wait, outcome: Outcome::LookupFailed { last: None } }
        } else {
            self.cursor = 0;
            self.stage = Stage::Fetching;
            Step { action: Action::Query(self.request(0)), outcome: Outcome::LookupStarted }
        }
    }

    fn reply(&mut self, response: &ProviderResponse, now: u64) -> (step: Step)
        requires
            old(self).stage is Fetching,
            now + old(self).interval <= u64::MAX,
        ensures
            (final(self)@, step@) == old(self)@.reply(
                old(self).cursor as int,
                response@,
                now as nat,
            ),
            final(self)@.wf(),
    {
        proof {
            use_type_invariant(&*self);
        }
        match read_ip(&self.providers[self.cursor], response) {
            Err(error) => {
                if self.cursor + 1 < self.providers.len() {
                    self.cursor = self.cursor + 1;
                    Step {
                        action: Action::Query(self.request(self.cursor)),
                        outcome: Outcome::ProviderFailed(error),
                    }
                } else {
                    self.stage = Stage::Idle;
                    self.state.defer(now, self.interval);
                    Step {
                        action: Action::Wait,
                        outcome: Outcome::LookupFailed { last: Some(error) },
                    }
                }
            },
            Ok(ip) => self.confirm(ip, now),
        }
    }

    fn confirm(&mut self, ip: String, now: u64) -> (step: Step)
        requires
            old(self).stage is Fetching,
            now + old(self).interval <= u64::MAX,
        ensures
            (final(self)@, step@) == old(self)@.confirm(ip@, now as nat),
            final(self)@.wf(),
    {
        proof {
            use_type_invariant(&*self);
        }
        self.stage = Stage::Idle;
        match self.state.assess(&ip, &self.client_label) {
            Assessment::First => {
                self.state.store(ip, now, self.interval);
                Step { action: Action::Wait, outcome: Outcome::Initialized }
            },
            Assessment::Unchanged => {
                self.state.defer(now, self.interval);
                Step { action: Action::Wait, outcome: Outcome::Unchanged }
            },
            Assessment::Changed(event) => {
                if self.channels.len() == 0 {
                    self.state.store(ip, now, self.interval);
                    Step { action: Action::Wait, outcome: Outcome::Changed }
                } else {
                    self.event = Some(event);
                    self.cursor = 0;
                    self.stage = Stage::Notifying;
                    Step { action: Action::Send(self.delivery(0)), outcome: Outcome::Changed }
                }
            },
        }
    }

    fn sent(&mut self, delivered: bool, now: u64) -> (step: Step)
        requires
            old(self).stage is Notifying,
            now + old(self).interval <= u64::MAX,
        ensures
            (final(self)@, step@) == old(self)@.sent(
                old(self).event->0@,
                old(self).cursor as int,
                delivered,
                now as nat,
            ),
            final(self)@.wf(),
    {
        proof {
            use_type_invariant(&*self);
        }
        if self.cursor + 1 < self.channels.len() {
            self.cursor = self.cursor + 1;
            Step {
                action: Action::Send(self.delivery(self.cursor)),
                outcome: Outcome::Notified { delivered },
            }
        } else {
            self.stage = Stage::Idle;
            let ip = self.announced().current.clone();
            self.state.store(ip, now, self.interval);
            Step { action: Action::Wait, outcome: Outcome::Notified { delivered } }
        }
    }
}

} // verus!
