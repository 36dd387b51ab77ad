//! The scheduler: the order of the steps of a reconciliation cycle, and what
//! follows a cycle.
//!
//! The scheduler does no outside work itself. It is a state machine: it
//! takes the event that reports what came of the last action and answers
//! with the next phase and the action to perform. Whoever drives it resolves
//! the address, reads and writes the state file, calls the provider and
//! sleeps, one action at a time, and hands each result back as an event.
//!
//! A cycle runs in a fixed order: resolve the candidate address, load the
//! stored state and decide, push the candidate to the provider if the
//! decision is to apply, and commit the candidate only once the provider
//! has accepted it. Any failure ends the cycle there. With an interval set
//! the scheduler then waits and starts over, whatever the cycle came to;
//! without one it stops after the one cycle and reports how it ended.

use vstd::prelude::*;
use crate::config::{Config, ConfigView};
use crate::error::Error;
use crate::external::{ExternalIp, ExternalIpView};
use crate::persistent::{
    loaded_address, rendered_state, state_file, state_file_name, Persistance, PersistanceView,
    StoredFile, StoredFileView,
};
use crate::providers::{
    outcome, reply_failure, update_for, ProviderReply, RecordType, RecordUpdate, RecordUpdateView,
};
use crate::reconciler::{decide, decision, Decision};

verus! {

/// What came of the action the scheduler last asked for.
#[derive(Debug, PartialEq, Eq)]
pub enum Event {
    /// It is time for a cycle: the daemon has started, or the wait is over.
    Tick,
    /// The resolver has answered: the candidate address, or `None` where it
    /// found none.
    Resolved(Option<ExternalIp>),
    /// The state file has been read.
    Loaded(StoredFile),
    /// The provider has been handed the update.
    Applied(ProviderReply),
    /// The state file has been written (`true`), or the write has failed.
    Committed(bool),
}

/// What an [`Event`] stands for.
pub enum EventView {
    Tick,
    Resolved(Option<ExternalIpView>),
    Loaded(StoredFileView),
    Applied(ProviderReply),
    Committed(bool),
}

impl View for Event {
    type V = EventView;

    open spec fn view(&self) -> EventView {
        match self {
            Event::Tick => EventView::Tick,
            Event::Resolved(Some(candidate)) => EventView::Resolved(Some(candidate@)),
            Event::Resolved(None) => EventView::Resolved(None),
            Event::Loaded(file) => EventView::Loaded(file@),
            Event::Applied(reply) => EventView::Applied(*reply),
            Event::Committed(written) => EventView::Committed(*written),
        }
    }
}

/// What the scheduler asks its driver to do next.
#[derive(Debug, PartialEq, Eq)]
pub enum Action {
    /// Find out the public address, and report `Resolved`.
    Resolve,
    /// Read the state file of this name, and report `Loaded`.
    Load { file_name: String },
    /// Hand this update to the provider, and report `Applied`.
    Apply { update: RecordUpdate },
    /// Replace the state file of this name by this text, and report
    /// `Committed`.
    Commit { file_name: String, text: String },
    /// The cycle is over, with this failure if any. Log it, sleep for so
    /// many seconds, and report `Tick`.
    Wait { seconds: u64, failure: Option<Error> },
    /// The one cycle is over, with this failure if any. Nothing follows.
    Stop { failure: Option<Error> },
}

/// What an [`Action`] stands for.
pub enum ActionView {
    Resolve,
    Load { file_name: Seq<char> },
    Apply { update: RecordUpdateView },
    Commit { file_name: Seq<char>, text: Seq<char> },
    Wait { seconds: u64, failure: Option<Error> },
    Stop { failure: Option<Error> },
}

impl View for Action {
    type V = ActionView;

    open spec fn view(&self) -> ActionView {
        match self {
            Action::Resolve => ActionView::Resolve,
            Action::Load { file_name } => ActionView::Load { file_name: file_name@ },
            Action::Apply { update } => ActionView::Apply { update: update@ },
            Action::Commit { file_name, text } => ActionView::Commit {
                file_name: file_name@,
                text: text@,
            },
            Action::Wait { seconds, failure } => ActionView::Wait {
                seconds: *seconds,
                failure: *failure,
            },
            Action::Stop { failure } => ActionView::Stop { failure: *failure },
        }
    }
}

/// What an action that may be missing stands for.
pub open spec fn asked(action: Option<Action>) -> Option<ActionView> {
    match action {
        Some(action) => Some(action@),
        None => None,
    }
}

/// Where in a cycle the scheduler stands: which event it awaits.
#[derive(Debug, PartialEq, Eq)]
pub enum Phase {
    /// Between cycles: awaits `Tick`.
    Waiting,
    /// Awaits `Resolved`.
    Resolving,
    /// Awaits `Loaded`, for this candidate.
    Loading { candidate: ExternalIp },
    /// Awaits `Applied`: the candidate is with the provider, and the store
    /// still holds the state as it was loaded.
    Applying { candidate: ExternalIp, store: Persistance },
    /// Awaits `Committed`: the provider has accepted the candidate, and the
    /// store still holds the state as it was loaded.
    Committing { candidate: ExternalIp, store: Persistance },
    /// The one cycle of a one-shot run is over: awaits nothing.
    Stopped,
}

/// What a [`Phase`] stands for.
pub enum PhaseView {
    Waiting,
    Resolving,
    Loading { candidate: ExternalIpView },
    Applying { candidate: ExternalIpView, store: PersistanceView },
    Committing { candidate: ExternalIpView, store: PersistanceView },
    Stopped,
}

impl View for Phase {
    type V = PhaseView;

    open spec fn view(&self) -> PhaseView {
        match self {
            Phase::Waiting => PhaseView::Waiting,
            Phase::Resolving => PhaseView::Resolving,
            Phase::Loading { candidate } => PhaseView::Loading { candidate: candidate@ },
            Phase::Applying { candidate, store } => PhaseView::Applying {
                candidate: candidate@,
                store: store@,
            },
            Phase::Committing { candidate, store } => PhaseView::Committing {
                candidate: candidate@,
                store: store@,
            },
            Phase::Stopped => PhaseView::Stopped,
        }
    }
}

/// The scheduler: its configuration and the phase it is in.
#[derive(Debug, PartialEq, Eq)]
pub struct Scheduler {
    config: Config,
    phase: Phase,
}

/// What a [`Scheduler`] stands for.
pub struct SchedulerView {
    pub config: ConfigView,
    pub phase: PhaseView,
}

impl View for Scheduler {
    type V = SchedulerView;

    closed spec fn view(&self) -> SchedulerView {
        SchedulerView { config: self.config@, phase: self.phase@ }
    }
}

/// A scheduler before its first cycle, and between two cycles.
pub open spec fn start(config: ConfigView) -> SchedulerView {
    SchedulerView { config, phase: PhaseView::Waiting }
}

/// How a cycle ends, with `failure` if it failed: with an interval the
/// scheduler waits for the next cycle, without one it stops.
pub open spec fn finish(
    config: ConfigView,
    failure: Option<Error>,
) -> (SchedulerView, Option<ActionView>) {
    match config.interval {
        Some(seconds) => (
            SchedulerView { config, phase: PhaseView::Waiting },
            Some(ActionView::Wait { seconds, failure }),
        ),
        None => (
            SchedulerView { config, phase: PhaseView::Stopped },
            Some(ActionView::Stop { failure }),
        ),
    }
}

/// The scheduler's one rule: the phase and the action that follow an event.
/// An event the phase does not await changes nothing and asks for nothing.
pub open spec fn step(
    scheduler: SchedulerView,
    event: EventView,
) -> (SchedulerView, Option<ActionView>) {
    let config = scheduler.config;
    match (scheduler.phase, event) {
        (PhaseView::Waiting, EventView::Tick) => (
            SchedulerView { config, phase: PhaseView::Resolving },
            Some(ActionView::Resolve),
        ),
        (PhaseView::Resolving, EventView::Resolved(None)) => finish(
            config,
            Some(Error::Resolution),
        ),
        (PhaseView::Resolving, EventView::Resolved(Some(candidate))) => (
            SchedulerView { config, phase: PhaseView::Loading { candidate } },
            Some(ActionView::Load { file_name: state_file(config.name) }),
        ),
        (PhaseView::Loading { candidate }, EventView::Loaded(file)) => {
            match loaded_address(file) {
                None => finish(config, Some(Error::StateCorrupt)),
                Some(ip) => match decision(ip, candidate.address, config.force) {
                    Decision::Skip => finish(config, None),
                    Decision::Apply => (
                        SchedulerView {
                            config,
                            phase: PhaseView::Applying {
                                candidate,
                                store: PersistanceView { file_name: state_file(config.name), ip },
                            },
                        },
                        Some(
                            ActionView::Apply {
                                update: update_for(
                                    config.name,
                                    candidate.address,
                                    candidate.family,
                                ),
                            },
                        ),
                    ),
                },
            }
        },
        (PhaseView::Applying { candidate, store }, EventView::Applied(reply)) => {
            match reply_failure(reply) {
                Some(failure) => finish(config, Some(failure)),
                None => (
                    SchedulerView { config, phase: PhaseView::Committing { candidate, store } },
                    Some(
                        ActionView::Commit {
                            file_name: store.file_name,
                            text: rendered_state(Some(candidate.address)),
                        },
                    ),
                ),
            }
        },
        (PhaseView::Committing { .. }, EventView::Committed(written)) => finish(
            config,
            if written {
                None
            } else {
                Some(Error::StatePersistFailure)
            },
        ),
        _ => (scheduler, None),
    }
}

impl Scheduler {
    /// A scheduler that has not begun: it awaits the first `Tick`.
    pub fn new(config: Config) -> (r: Scheduler)
        ensures
            r@ == start(config@),
    {
        Scheduler { config, phase: Phase::Waiting }
    }

    /// The configuration the scheduler was made with.
    pub fn config(&self) -> (r: &Config)
        ensures
            r@ == self@.config,
    {
        &self.config
    }

    /// The phase the scheduler is in.
    pub fn phase(&self) -> (r: &Phase)
        ensures
            r@ == self@.phase,
    {
        &self.phase
    }

    /// Ends the cycle, with `failure` if it failed.
    fn finish(config: Config, failure: Option<Error>) -> (r: (Scheduler, Option<Action>))
        ensures
            (r.0@, asked(r.1)) == finish(config@, failure),
    {
        match config.interval {
            Some(seconds) => (
                Scheduler { config, phase: Phase::Waiting },
                Some(Action::Wait { seconds, failure }),
            ),
            None => (Scheduler { config, phase: Phase::Stopped }, Some(Action::Stop { failure })),
        }
    }

    /// Takes an event and gives the scheduler after it and the action to
    /// perform next. An event that the phase does not await leaves the
    /// scheduler as it was and asks for nothing.
    pub fn step(self, event: Event) -> (r: (Scheduler, Option<Action>))
        ensures
            (r.0@, asked(r.1)) == step(self@, event@),
    {
        let Scheduler { config, phase } = self;
        match (phase, event) {
            (Phase::Waiting, Event::Tick) => (
                Scheduler { config, phase: Phase::Resolving },
                Some(Action::Resolve),
            ),
            (Phase::Resolving, Event::Resolved(None)) => Scheduler::finish(
                config,
                Some(Error::Resolution),
            ),
            (Phase::Resolving, Event::Resolved(Some(candidate))) => {
                let file_name = state_file_name(config.name.as_str());
                (
                    Scheduler { config, phase: Phase::Loading { candidate } },
                    Some(Action::Load { file_name }),
                )
            },
            (Phase::Loading { candidate }, Event::Loaded(file)) => {
                match Persistance::new(config.name.as_str(), &file) {
                    Err(failure) => Scheduler::finish(config, Some(failure)),
                    Ok(store) => match decide(&store, &candidate, config.force) {
                        Decision::Skip => Scheduler::finish(config, None),
                        Decision::Apply => {
                            let update = RecordUpdate::new(config.name.as_str(), &candidate);
                            (
                                Scheduler { config, phase: Phase::Applying { candidate, store } },
                                Some(Action::Apply { update }),
                            )
                        },
                    },
                }
            },
            (Phase::Applying { candidate, store }, Event::Applied(reply)) => {
                match outcome(reply) {
                    Err(failure) => Scheduler::finish(config, Some(failure)),
                    Ok(()) => {
                        let file_name = store.file_name().clone();
                        let text = store.text_for(candidate.address.as_str());
                        (
                            Scheduler { config, phase: Phase::Committing { candidate, store } },
                            Some(Action::Commit { file_name, text }),
                        )
                    },
                }
            },
            (Phase::Committing { candidate, store }, Event::Committed(written)) => {
                let mut store = store;
                match store.update(candidate.address.as_str(), written) {
                    Ok(()) => Scheduler::finish(config, None),
                    Err(failure) => Scheduler::finish(config, Some(failure)),
                }
            },
            (phase, _) => (Scheduler { config, phase }, None),
        }
    }
}

/// How far into a cycle a phase is.
pub open spec fn progress(phase: PhaseView) -> nat {
    match phase {
        PhaseView::Waiting => 0,
        PhaseView::Resolving => 1,
        PhaseView::Loading { .. } => 2,
        PhaseView::Applying { .. } => 3,
        PhaseView::Committing { .. } => 4,
        PhaseView::Stopped => 5,
    }
}

/// Whether an event is the report of an action: `Resolved` of `Resolve`,
/// `Loaded` of `Load`, `Applied` of `Apply`, `Committed` of `Commit`, and
/// `Tick` of `Wait`. Nothing reports `Stop`.
pub open spec fn answers(event: EventView, action: ActionView) -> bool {
    match action {
        ActionView::Resolve => event is Resolved,
        ActionView::Load { .. } => event is Loaded,
        ActionView::Apply { .. } => event is Applied,
        ActionView::Commit { .. } => event is Committed,
        ActionView::Wait { .. } => event is Tick,
        ActionView::Stop { .. } => false,
    }
}

/// Whether an action ends a cycle without failure.
pub open spec fn ends_well(action: ActionView) -> bool {
    match action {
        ActionView::Wait { failure, .. } => failure is None,
        ActionView::Stop { failure } => failure is None,
        _ => false,
    }
}

/// The steps of a cycle come in order. A step that asks for nothing changes
/// nothing. Any other either ends the cycle or takes it exactly one phase
/// on: from waiting to resolving, to loading, to applying, to committing.
/// No step is left out and none comes twice. The configuration is the same
/// throughout.
pub proof fn phases_come_in_order(scheduler: SchedulerView, event: EventView)
    ensures
        step(scheduler, event).0.config == scheduler.config,
        ({
            let (next, action) = step(scheduler, event);
            match action {
                None => next == scheduler,
                Some(ActionView::Wait { .. }) => next.phase is Waiting,
                Some(ActionView::Stop { .. }) => next.phase is Stopped,
                Some(_) => progress(next.phase) == progress(scheduler.phase) + 1,
            }
        }),
{
}

/// The scheduler awaits the report of what it asked for: after any step
/// that asks for an action, the event that reports that action is taken and
/// answered with the next action. A driver that reports each action it
/// performs is never turned away.
pub proof fn report_is_awaited(scheduler: SchedulerView, event: EventView, report: EventView)
    requires
        step(scheduler, event).1 matches Some(action) && answers(report, action),
    ensures
        step(step(scheduler, event).0, report).1 is Some,
{
}

/// A cycle ends without failure in two ways only: the decision was to skip,
/// or the state file has been written after the provider accepted the
/// update.
pub proof fn cycle_ends_well_only_settled(scheduler: SchedulerView, event: EventView)
    requires
        step(scheduler, event).1 matches Some(action) && ends_well(action),
    ensures
        ({
            ||| {
                &&& scheduler.phase matches PhaseView::Loading { candidate }
                &&& event matches EventView::Loaded(file)
                &&& loaded_address(file) matches Some(ip)
                &&& decision(ip, candidate.address, scheduler.config.force) == Decision::Skip
            }
            ||| scheduler.phase is Committing && event == EventView::Committed(true)
        }),
{
}

/// The provider is called only on a decision to apply: an update is asked
/// for only when the state has just been loaded and the decision for the
/// candidate is `Apply`, and it carries the candidate's address under the
/// canonical record name, with the record type of the candidate's family.
pub proof fn update_follows_decision(scheduler: SchedulerView, event: EventView)
    ensures
        step(scheduler, event).1 matches Some(ActionView::Apply { update }) ==> {
            &&& scheduler.phase matches PhaseView::Loading { candidate }
            &&& event matches EventView::Loaded(file)
            &&& loaded_address(file) matches Some(ip)
            &&& decision(ip, candidate.address, scheduler.config.force) == Decision::Apply
            &&& update == update_for(scheduler.config.name, candidate.address, candidate.family)
            &&& update.record_type == RecordType::of(candidate.family)
        },
{
}

/// Nothing is committed that the provider has not accepted: a write of the
/// state file is asked for only when the provider has just answered with
/// success, and the text to write records the candidate that was pushed.
pub proof fn commit_follows_accepted_update(scheduler: SchedulerView, event: EventView)
    ensures
        step(scheduler, event).1 matches Some(ActionView::Commit { file_name, text }) ==> {
            &&& scheduler.phase matches PhaseView::Applying { candidate, store }
            &&& event matches EventView::Applied(reply)
            &&& reply_failure(reply) is None
            &&& file_name == store.file_name
            &&& text == rendered_state(Some(candidate.address))
        },
{
}

/// What is committed is what was pushed: where a step asks for an update
/// and the next, on the provider's answer, asks for a write, the text to
/// write records the address of that update, and the file to write is the
/// state file of the configured record.
pub proof fn commit_records_the_pushed_address(
    scheduler: SchedulerView,
    file: StoredFileView,
    reply: ProviderReply,
)
    ensures
        ({
            let (applying, first) = step(scheduler, EventView::Loaded(file));
            let second = step(applying, EventView::Applied(reply)).1;
            first matches Some(ActionView::Apply { update }) ==> (second matches Some(
                ActionView::Commit { file_name, text },
            ) ==> {
                &&& text == rendered_state(Some(update.address))
                &&& file_name == state_file(scheduler.config.name)
                &&& reply_failure(reply) is None
            })
        }),
{
}

/// With an interval the scheduler runs on: no step stops it, whatever the
/// cycle came to, and each cycle's end is a wait of that interval.
pub proof fn continuous_never_stops(scheduler: SchedulerView, event: EventView)
    requires
        scheduler.config.interval is Some,
        !(scheduler.phase is Stopped),
    ensures
        !(step(scheduler, event).0.phase is Stopped),
        !(step(scheduler, event).1 matches Some(ActionView::Stop { .. })),
        step(scheduler, event).1 matches Some(ActionView::Wait { seconds, .. })
            ==> Some(seconds) == scheduler.config.interval,
{
}

/// Without an interval the scheduler runs one cycle: it never waits, and
/// once it has stopped no event moves it.
pub proof fn one_shot_stops(scheduler: SchedulerView, event: EventView)
    requires
        scheduler.config.interval is None,
    ensures
        !(step(scheduler, event).1 matches Some(ActionView::Wait { .. })),
        step(scheduler, event).1 matches Some(ActionView::Stop { .. }) ==> step(
            scheduler,
            event,
        ).0.phase is Stopped,
        scheduler.phase is Stopped ==> step(scheduler, event) == (scheduler, None::<ActionView>),
{
}

/// Where a cycle stands once it has begun, resolved `candidate` and loaded
/// `file`: the scheduler then, and the action it asks for.
pub open spec fn decided(
    scheduler: SchedulerView,
    candidate: ExternalIpView,
    file: StoredFileView,
) -> (SchedulerView, Option<ActionView>) {
    let resolving = step(scheduler, EventView::Tick).0;
    let loading = step(resolving, EventView::Resolved(Some(candidate))).0;
    step(loading, EventView::Loaded(file))
}

/// Where the next cycle begins after a cycle has ended in `ended`: a
/// scheduler that waits goes on from there, one that has stopped is done,
/// and the next run of the daemon begins afresh.
pub open spec fn resumed(ended: SchedulerView) -> SchedulerView {
    if ended.phase is Stopped {
        start(ended.config)
    } else {
        ended
    }
}

/// No-op stability of a cycle: where the state file records the candidate's
/// address and the cycle is not forced, it ends at once and without failure.
/// The provider is not called and the state file is not written.
pub proof fn unchanged_address_makes_no_call(
    config: ConfigView,
    candidate: ExternalIpView,
    file: StoredFileView,
)
    requires
        !config.force,
        loaded_address(file) == Some(Some(candidate.address)),
    ensures
        decided(start(config), candidate, file) == finish(config, None),
{
}

/// First run and force: where the state file is missing, or the cycle is
/// forced and the state file holds a state, the cycle asks for the update
/// of the record to the candidate.
pub proof fn first_or_forced_cycle_pushes(
    config: ConfigView,
    candidate: ExternalIpView,
    file: StoredFileView,
)
    requires
        file is Absent || (config.force && loaded_address(file) is Some),
    ensures
        decided(start(config), candidate, file).1 == Some(
            ActionView::Apply {
                update: update_for(config.name, candidate.address, candidate.family),
            },
        ),
{
}

/// Convergence after a failed commit. Take a cycle that pushed the candidate,
/// was answered with success, and was then told that the write of the state
/// file failed. It ends in `StatePersistFailure`. The state file is as it
/// was, so the next cycle loads the same contents, and for the same
/// candidate it asks for the same update and the same write again; if that
/// write succeeds, the cycle ends without failure. Nothing is stuck.
pub proof fn failed_commit_is_retried(
    config: ConfigView,
    candidate: ExternalIpView,
    file: StoredFileView,
    reply: ProviderReply,
)
    requires
        reply_failure(reply) is None,
    ensures
        ({
            let (applying, first) = decided(start(config), candidate, file);
            let (committing, second) = step(applying, EventView::Applied(reply));
            let (ended, last) = step(committing, EventView::Committed(false));
            let (applying_again, again) = decided(resumed(ended), candidate, file);
            let (committing_again, write) = step(applying_again, EventView::Applied(reply));
            first is Some && first->0 is Apply ==> {
                &&& second == Some(
                    ActionView::Commit {
                        file_name: state_file(config.name),
                        text: rendered_state(Some(candidate.address)),
                    },
                )
                &&& (ended, last) == finish(config, Some(Error::StatePersistFailure))
                &&& resumed(ended) == start(config)
                &&& again == first
                &&& write == second
                &&& step(committing_again, EventView::Committed(true)) == finish(config, None)
            }
        }),
{
}

/// The state never advances past a failed update. Take a cycle that pushed
/// the candidate and was answered with a failure. It ends there, in that
/// failure, and asks for no write. The state file is as it was, so the next
/// cycle loads the same contents and asks for the same update again for the
/// same candidate: the comparison with the stored state is the retry.
pub proof fn failed_update_is_retried(
    config: ConfigView,
    candidate: ExternalIpView,
    file: StoredFileView,
    reply: ProviderReply,
)
    requires
        reply_failure(reply) is Some,
    ensures
        ({
            let (applying, first) = decided(start(config), candidate, file);
            let (ended, last) = step(applying, EventView::Applied(reply));
            let again = decided(resumed(ended), candidate, file).1;
            first is Some && first->0 is Apply ==> {
                &&& (ended, last) == finish(config, reply_failure(reply))
                &&& resumed(ended) == start(config)
                &&& again == first
            }
        }),
{
}

} // verus!
