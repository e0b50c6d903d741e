//! The event dispatcher's decisions.
//!
//! Native listeners only signal what kind of activity happened. The
//! dispatcher forwards suspend and resume at once; for any other signal it
//! has the current state queried, diffs it against the last known state
//! and emits the granular events. The caller performs the queries and the
//! emissions; this module decides.
use vstd::prelude::*;

use crate::error::Error;
use crate::events::{
    diff_states, state_diff, NativeEvent, BATTERY_CHANGED_EVENT, POWER_SOURCE_CHANGED_EVENT,
    RESUME_EVENT, SUSPEND_EVENT,
};
use crate::models::PowerState;

verus! {

/// An event to emit to the frontend.
#[derive(Debug, Clone, Copy, PartialEq, Eq, Structural)]
pub enum Emission {
    /// The system switched between AC and battery; carries the new state.
    PowerSourceChanged(PowerState),
    /// Battery presence, percentage or charging state changed; carries the
    /// new state.
    BatteryChanged(PowerState),
    /// The system is about to suspend.
    Suspend,
    /// The system resumed.
    Resume,
}

/// The name of the event an emission is sent as.
pub open spec fn emission_name(emission: Emission) -> Seq<char> {
    match emission {
        Emission::PowerSourceChanged(_) => POWER_SOURCE_CHANGED_EVENT@,
        Emission::BatteryChanged(_) => BATTERY_CHANGED_EVENT@,
        Emission::Suspend => SUSPEND_EVENT@,
        Emission::Resume => RESUME_EVENT@,
    }
}

/// The payload of an emission: the new state, or nothing (`null`).
pub open spec fn emission_payload(emission: Emission) -> Option<PowerState> {
    match emission {
        Emission::PowerSourceChanged(state) => Some(state),
        Emission::BatteryChanged(state) => Some(state),
        Emission::Suspend => None,
        Emission::Resume => None,
    }
}

impl Emission {
    /// The name of the event this emission is sent as.
    pub fn event_name(&self) -> (name: &'static str)
        ensures
            name@ == emission_name(*self),
    {
        match self {
            Emission::PowerSourceChanged(_) => POWER_SOURCE_CHANGED_EVENT,
            Emission::BatteryChanged(_) => BATTERY_CHANGED_EVENT,
            Emission::Suspend => SUSPEND_EVENT,
            Emission::Resume => RESUME_EVENT,
        }
    }

    /// The payload of this emission.
    pub fn payload(&self) -> (payload: Option<PowerState>)
        ensures
            payload == emission_payload(*self),
    {
        match self {
            Emission::PowerSourceChanged(state) => Some(*state),
            Emission::BatteryChanged(state) => Some(*state),
            Emission::Suspend => None,
            Emission::Resume => None,
        }
    }
}

/// What the dispatcher does with a native signal.
#[derive(Debug, Clone, Copy, PartialEq, Eq, Structural)]
pub enum DispatchStep {
    /// Emit this event right away.
    Emit(Emission),
    /// Query the current state and hand the result to
    /// [`Dispatcher::on_requery_result`].
    Requery,
}

/// The step a native signal leads to.
pub open spec fn dispatch_step(event: NativeEvent) -> DispatchStep {
    match event {
        NativeEvent::Suspend => DispatchStep::Emit(Emission::Suspend),
        NativeEvent::Resume => DispatchStep::Emit(Emission::Resume),
        NativeEvent::Requery => DispatchStep::Requery,
    }
}

/// The events a fresh state leads to after `last`: none without a known
/// previous state (nothing is fabricated), otherwise a power source event
/// and then a battery event, each only when the diff reports that change.
pub open spec fn requery_emissions(last: Option<PowerState>, next: PowerState) -> Seq<Emission> {
    match last {
        None => Seq::empty(),
        Some(previous) => {
            let diff = state_diff(previous, next);
            (if diff.power_source_changed {
                seq![Emission::PowerSourceChanged(next)]
            } else {
                Seq::empty()
            }) + (if diff.battery_changed {
                seq![Emission::BatteryChanged(next)]
            } else {
                Seq::empty()
            })
        },
    }
}

/// The last known state after a query: the queried state on success; a
/// failed query changes nothing.
pub open spec fn state_after_query(last: Option<PowerState>, result: Result<PowerState, Error>)
    -> Option<PowerState> {
    match result {
        Ok(next) => Some(next),
        Err(_) => last,
    }
}

/// The events a query result leads to: none for a failed query.
pub open spec fn query_emissions(last: Option<PowerState>, result: Result<PowerState, Error>) -> Seq<
    Emission,
> {
    match result {
        Ok(next) => requery_emissions(last, next),
        Err(_) => Seq::empty(),
    }
}

/// The dispatcher: the last known power state.
pub struct Dispatcher {
    last: Option<PowerState>,
}

impl View for Dispatcher {
    type V = Option<PowerState>;

    closed spec fn view(&self) -> Option<PowerState> {
        self.last
    }
}

impl Dispatcher {
    /// Seeds the dispatcher with the initial query. A failure (e.g. a
    /// headless system without power information) only means the first
    /// change has nothing to diff against.
    pub fn new(initial: Result<PowerState, Error>) -> (dispatcher: Dispatcher)
        ensures
            dispatcher@ == state_after_query(None, initial),
    {
        match initial {
            Ok(state) => Dispatcher { last: Some(state) },
            Err(_) => Dispatcher { last: None },
        }
    }

    /// The last known state.
    pub fn last_state(&self) -> (last: Option<PowerState>)
        ensures
            last == self@,
    {
        self.last
    }

    /// Decides what to do with a native signal.
    pub fn on_native_event(&self, event: NativeEvent) -> (step: DispatchStep)
        ensures
            step == dispatch_step(event),
    {
        match event {
            NativeEvent::Suspend => DispatchStep::Emit(Emission::Suspend),
            NativeEvent::Resume => DispatchStep::Emit(Emission::Resume),
            NativeEvent::Requery => DispatchStep::Requery,
        }
    }

    /// Takes the result of a query made after a native signal and returns
    /// the events to emit, in order.
    pub fn on_requery_result(&mut self, result: Result<PowerState, Error>) -> (emissions: Vec<
        Emission,
    >)
        ensures
            final(self)@ == state_after_query(old(self)@, result),
            emissions@ == query_emissions(old(self)@, result),
    {
        let mut emissions: Vec<Emission> = Vec::new();
        let next = match result {
            Ok(state) => state,
            Err(_) => {
                return emissions;
            },
        };
        if let Some(previous) = &self.last {
            let diff = diff_states(previous, &next);
            if diff.power_source_changed {
                emissions.push(Emission::PowerSourceChanged(next));
            }
            if diff.battery_changed {
                emissions.push(Emission::BatteryChanged(next));
            }
        }
        self.last = Some(next);
        proof {
            assert(emissions@ =~= query_emissions(old(self)@, result));
        }
        emissions
    }
}

/// Without a known previous state, a query never produces events.
pub proof fn lemma_no_events_without_baseline(result: Result<PowerState, Error>)
    ensures
        query_emissions(None, result) == Seq::<Emission>::empty(),
{
}

/// Querying the same state again produces no events: after a successful
/// query of `state`, a second query returning `state` is silent.
pub proof fn lemma_repeated_state_is_silent(last: Option<PowerState>, state: PowerState)
    ensures
        state_after_query(last, Ok(state)) == Some(state),
        query_emissions(state_after_query(last, Ok(state)), Ok(state)) == Seq::<Emission>::empty(),
{
    assert(requery_emissions(Some(state), state) =~= Seq::<Emission>::empty());
}

/// Every event a query produces carries the queried state, and at most one
/// event of each kind is produced, power source before battery.
pub proof fn lemma_emissions_carry_new_state(previous: PowerState, next: PowerState)
    ensures
        requery_emissions(Some(previous), next).len() <= 2,
        forall|i: int|
            0 <= i < requery_emissions(Some(previous), next).len() ==> emission_payload(
                #[trigger] requery_emissions(Some(previous), next)[i],
            ) == Some(next),
        requery_emissions(Some(previous), next).contains(Emission::PowerSourceChanged(next))
            <==> previous.power_source != next.power_source,
        requery_emissions(Some(previous), next).contains(Emission::BatteryChanged(next))
            <==> state_diff(previous, next).battery_changed,
{
    let e = requery_emissions(Some(previous), next);
    let d = state_diff(previous, next);
    if d.power_source_changed && d.battery_changed {
        assert(e[0] == Emission::PowerSourceChanged(next));
        assert(e[1] == Emission::BatteryChanged(next));
    } else if d.power_source_changed {
        assert(e[0] == Emission::PowerSourceChanged(next));
    } else if d.battery_changed {
        assert(e[0] == Emission::BatteryChanged(next));
    }
}

/// A failed query neither changes the last known state nor emits events.
pub proof fn lemma_failed_query_changes_nothing(last: Option<PowerState>, error: Error)
    ensures
        state_after_query(last, Err(error)) == last,
        query_emissions(last, Err(error)) == Seq::<Emission>::empty(),
{
}

/// Suspend and resume are forwarded at once and never trigger a query.
pub proof fn lemma_sleep_signals_are_forwarded()
    ensures
        dispatch_step(NativeEvent::Suspend) == DispatchStep::Emit(Emission::Suspend),
        dispatch_step(NativeEvent::Resume) == DispatchStep::Emit(Emission::Resume),
        emission_payload(Emission::Suspend) is None,
        emission_payload(Emission::Resume) is None,
{
}

/// The events of a query that follows a known state are exactly: one
/// power-source event when the power source differs, then one battery
/// event when a battery appeared or disappeared or its presence flag,
/// percentage or charging state differs; both carry the new state and
/// nothing else is emitted. In particular a change of power source alone
/// gives exactly one power-source event.
pub proof fn lemma_requery_emits_each_change_once(previous: PowerState, next: PowerState)
    ensures
        requery_emissions(Some(previous), next) == (if previous.power_source != next.power_source {
            seq![Emission::PowerSourceChanged(next)]
        } else {
            Seq::<Emission>::empty()
        }) + (if (match (previous.battery, next.battery) {
            (Some(p), Some(n)) => p.is_present != n.is_present || p.percentage != n.percentage
                || p.is_charging != n.is_charging,
            (None, None) => false,
            _ => true,
        }) {
            seq![Emission::BatteryChanged(next)]
        } else {
            Seq::<Emission>::empty()
        }),
        previous.power_source != next.power_source && previous.battery == next.battery
            ==> requery_emissions(Some(previous), next) == seq![
            Emission::PowerSourceChanged(next),
        ],
        previous.power_source == next.power_source && previous.battery == next.battery
            ==> requery_emissions(Some(previous), next) == Seq::<Emission>::empty(),
{
    let e = requery_emissions(Some(previous), next);
    if previous.power_source != next.power_source && previous.battery == next.battery {
        assert(e =~= seq![Emission::PowerSourceChanged(next)]);
    }
    if previous.power_source == next.power_source && previous.battery == next.battery {
        assert(e =~= Seq::<Emission>::empty());
    }
}

/// A successful query makes the queried state the last known one; a
/// failed query keeps the last known state. Suspend and resume are
/// emitted as they come, any other signal asks for a query.
pub proof fn lemma_query_updates_last_state(
    last: Option<PowerState>,
    next: PowerState,
    error: Error,
    event: NativeEvent,
)
    ensures
        state_after_query(last, Ok(next)) == Some(next),
        state_after_query(last, Err(error)) == last,
        query_emissions(last, Ok(next)) == requery_emissions(last, next),
        dispatch_step(event) == (match event {
            NativeEvent::Suspend => DispatchStep::Emit(Emission::Suspend),
            NativeEvent::Resume => DispatchStep::Emit(Emission::Resume),
            NativeEvent::Requery => DispatchStep::Requery,
        }),
{
}

/// The event names: `power-monitor://power-source-changed`,
/// `power-monitor://battery-changed`, `power-monitor://suspend` and
/// `power-monitor://resume`; state changes carry the state, sleep events
/// carry nothing.
pub proof fn lemma_emission_names_and_payloads(state: PowerState)
    ensures
        emission_name(Emission::PowerSourceChanged(state))
            == "power-monitor://power-source-changed"@,
        emission_name(Emission::BatteryChanged(state)) == "power-monitor://battery-changed"@,
        emission_name(Emission::Suspend) == "power-monitor://suspend"@,
        emission_name(Emission::Resume) == "power-monitor://resume"@,
        emission_payload(Emission::PowerSourceChanged(state)) == Some(state),
        emission_payload(Emission::BatteryChanged(state)) == Some(state),
{
}

} // verus!
