//! Running the assembled components side by side and supervising them.
//!
//! The runner is a state machine `Assembled -> Running -> Completed | Faulted`.
//! It decides what is started and what is waited for; starting a unit of
//! work and waiting for it to stop is left to whoever drives the runner.

use vstd::prelude::*;
use crate::builder::RecvRunnerKind;
use crate::engine::Engine;

verus! {

/// Something that runs until it completes or faults.
pub trait Runnable {
    fn run(&mut self);
}

/// One concurrent unit of work. Units are started, and waited for, in the
/// order: aggregation sync, ingestion sync, then the receivers in the order
/// in which they were built.
#[derive(Clone, Copy, Debug, PartialEq, Eq, Structural)]
pub enum Unit {
    /// The engine's periodic aggregation duty.
    AggregationSync,
    /// The engine's ingestion duty.
    IngestionSync,
    /// The receiver at the given position.
    Receiver(usize),
}

/// How a unit of work stopped.
#[derive(Clone, Copy, Debug, PartialEq, Eq, Structural)]
pub enum Exit {
    Clean,
    Fault,
}

/// What a finished run amounts to.
#[derive(Clone, Copy, Debug, PartialEq, Eq, Structural)]
pub enum Outcome {
    /// Every unit stopped cleanly.
    Completed,
    /// At least one unit faulted; the unit named is the first one, in start
    /// order, that did.
    Faulted(Unit),
}

/// What the driver of a runner has to do next.
#[derive(Clone, Copy, Debug, PartialEq, Eq, Structural)]
pub enum Step {
    /// Start the units: call `Runner::start`.
    Launch,
    /// Wait until the named unit has stopped, then report how it did.
    Await(Unit),
    /// Every unit has stopped: return, surfacing the fault if there is one.
    Finish(Outcome),
}

#[derive(Clone, Copy, Debug, PartialEq, Eq, Structural)]
pub enum Phase {
    Assembled,
    Running,
    Completed,
    Faulted,
}

/// What `Runner::start` hands over to be run.
pub struct Launch {
    pub engine: Engine,
    pub receivers: Vec<RecvRunnerKind>,
}

/// Number of units that run beside `receivers` receivers: the two duties
/// of the engine and the receivers themselves.
pub open spec fn unit_count(receivers: nat) -> nat {
    receivers + 2
}

impl Unit {
    /// The unit at a position of the start order.
    pub open spec fn at(position: int) -> Unit {
        if position == 0 {
            Unit::AggregationSync
        } else if position == 1 {
            Unit::IngestionSync
        } else {
            Unit::Receiver((position - 2) as usize)
        }
    }

    /// The position of a unit in the start order.
    pub open spec fn spec_position(self) -> int {
        match self {
            Unit::AggregationSync => 0,
            Unit::IngestionSync => 1,
            Unit::Receiver(index) => index + 2,
        }
    }

    /// The position of this unit in the start order, where it fits the
    /// machine's word.
    pub fn position(self) -> (position: Option<usize>)
        ensures
            position == if self.spec_position() <= usize::MAX {
                Some(self.spec_position() as usize)
            } else {
                None
            },
    {
        match self {
            Unit::AggregationSync => Some(0),
            Unit::IngestionSync => Some(1),
            Unit::Receiver(index) => index.checked_add(2),
        }
    }

    pub fn nth(position: usize) -> (unit: Unit)
        ensures
            unit == Unit::at(position as int),
    {
        if position == 0 {
            Unit::AggregationSync
        } else if position == 1 {
            Unit::IngestionSync
        } else {
            Unit::Receiver(position - 2)
        }
    }
}

/// `position` holds the first fault of `observed`.
pub open spec fn first_fault_at(observed: Seq<Exit>, position: int) -> bool {
    &&& 0 <= position < observed.len()
    &&& observed[position] == Exit::Fault
    &&& forall|earlier: int| 0 <= earlier < position ==> observed[earlier] == Exit::Clean
}

/// Some unit of `observed` faulted.
pub open spec fn any_fault(observed: Seq<Exit>) -> bool {
    exists|position: int| 0 <= position < observed.len() && observed[position] == Exit::Fault
}

/// The outcome of a run whose units stopped as `observed` says, where
/// `observed[i]` is the exit of the unit at position `i` of the start order.
pub open spec fn verdict(observed: Seq<Exit>) -> Outcome {
    if exists|position: int| first_fault_at(observed, position) {
        Outcome::Faulted(Unit::at(choose|position: int| first_fault_at(observed, position)))
    } else {
        Outcome::Completed
    }
}

/// What is to be done once the exits in `observed` have been seen of a run
/// with `receivers` receivers.
pub open spec fn step_after(receivers: nat, observed: Seq<Exit>) -> Step {
    if observed.len() < unit_count(receivers) {
        Step::Await(Unit::at(observed.len() as int))
    } else {
        Step::Finish(verdict(observed))
    }
}

/// At most one position holds the first fault.
pub proof fn lemma_first_fault_unique(observed: Seq<Exit>, p: int, q: int)
    requires
        first_fault_at(observed, p),
        first_fault_at(observed, q),
    ensures
        p == q,
{
    if p < q {
        assert(observed[p] == Exit::Clean);
    } else if q < p {
        assert(observed[q] == Exit::Clean);
    }
}

/// Where any unit faulted, some unit was the first to.
pub proof fn lemma_first_fault_exists(observed: Seq<Exit>, position: int)
    requires
        0 <= position < observed.len(),
        observed[position] == Exit::Fault,
    ensures
        exists|first: int| first_fault_at(observed, first) && first <= position,
    decreases position,
{
    if forall|earlier: int| 0 <= earlier < position ==> observed[earlier] == Exit::Clean {
        assert(first_fault_at(observed, position));
    } else {
        let earlier = choose|earlier: int|
            0 <= earlier < position && observed[earlier] != Exit::Clean;
        lemma_first_fault_exists(observed, earlier);
    }
}

/// Scans for the first fault.
fn first_fault(observed: &Vec<Exit>) -> (found: Option<usize>)
    ensures
        match found {
            Some(position) => first_fault_at(observed@, position as int),
            None => forall|p: int| 0 <= p < observed.len() ==> observed[p] == Exit::Clean,
        },
{
    let mut position: usize = 0;
    while position < observed.len()
        invariant
            position <= observed.len(),
            forall|p: int| 0 <= p < position ==> observed[p] == Exit::Clean,
        decreases observed.len() - position,
    {
        if observed[position] == Exit::Fault {
            return Some(position);
        }
        position = position + 1;
    }
    None
}

/// Computes the outcome of a run from the exits of its units.
pub fn conclude(observed: &Vec<Exit>) -> (outcome: Outcome)
    ensures
        outcome == verdict(observed@),
{
    match first_fault(observed) {
        Some(position) => {
            proof {
                let chosen = choose|p: int| first_fault_at(observed@, p);
                lemma_first_fault_unique(observed@, position as int, chosen);
            }
            Outcome::Faulted(Unit::nth(position))
        },
        None => {
            assert forall|p: int| !first_fault_at(observed@, p) by {}
            Outcome::Completed
        },
    }
}

/// A run is over exactly when each of its units has been waited for: the
/// two duties of the engine and every receiver. Until then the next step is
/// to wait for the unit that follows those already seen.
pub proof fn lemma_finish_only_after_every_unit(receivers: nat, observed: Seq<Exit>)
    ensures
        step_after(receivers, observed) is Finish <==> observed.len() >= receivers + 2,
        observed.len() < receivers + 2 ==> step_after(receivers, observed) == Step::Await(
            Unit::at(observed.len() as int),
        ),
{
}

/// The start order of a run with `receivers` receivers names the
/// aggregation duty, the ingestion duty and each receiver, and names no
/// unit twice: exactly `receivers + 2` units are started.
pub proof fn lemma_start_order_names_each_unit_once(receivers: usize)
    ensures
        Unit::at(0) == Unit::AggregationSync,
        Unit::at(1) == Unit::IngestionSync,
        forall|index: int|
            0 <= index < receivers ==> #[trigger] Unit::at(index + 2) == Unit::Receiver(
                index as usize,
            ),
        forall|p: int, q: int|
            0 <= p < q < receivers + 2 ==> #[trigger] Unit::at(p) != #[trigger] Unit::at(q),
        forall|p: int| 0 <= p < receivers + 2 ==> (#[trigger] Unit::at(p)).spec_position() == p,
{
}

/// The outcome of a run is a fault exactly when some unit faulted: a fault
/// is never reported as a clean completion.
pub proof fn lemma_fault_is_never_reported_clean(observed: Seq<Exit>)
    ensures
        verdict(observed) is Faulted <==> any_fault(observed),
        verdict(observed) == Outcome::Completed <==> forall|position: int|
            0 <= position < observed.len() ==> observed[position] == Exit::Clean,
{
    if any_fault(observed) {
        let position = choose|position: int|
            0 <= position < observed.len() && observed[position] == Exit::Fault;
        lemma_first_fault_exists(observed, position);
    }
    if verdict(observed) is Faulted {
        let first = choose|position: int| first_fault_at(observed, position);
        assert(0 <= first < observed.len() && observed[first] == Exit::Fault);
    }
}

/// The unit that a faulted outcome names did fault, and no unit before it
/// in the start order did.
pub proof fn lemma_outcome_names_first_fault(observed: Seq<Exit>)
    requires
        observed.len() <= usize::MAX + 2,
    ensures
        verdict(observed) matches Outcome::Faulted(unit) ==> first_fault_at(
            observed,
            unit.spec_position(),
        ),
{
    if verdict(observed) is Faulted {
        let first = choose|position: int| first_fault_at(observed, position);
        assert(Unit::at(first).spec_position() == first);
    }
}

/// Where exactly one unit faults and every other unit stops cleanly, the
/// outcome is the fault of that unit.
pub proof fn lemma_single_fault_is_surfaced(observed: Seq<Exit>, culprit: int)
    requires
        0 <= culprit < observed.len(),
        observed[culprit] == Exit::Fault,
        forall|other: int|
            0 <= other < observed.len() && other != culprit ==> observed[other] == Exit::Clean,
    ensures
        verdict(observed) == Outcome::Faulted(Unit::at(culprit)),
{
    assert(first_fault_at(observed, culprit));
    let first = choose|position: int| first_fault_at(observed, position);
    lemma_first_fault_unique(observed, first, culprit);
}

/// The exits on record once a started run with `receivers` receivers,
/// of which `observed` is on record, is told of one more: it is recorded
/// while some unit is still waited for, and not after that.
pub open spec fn observed_after(receivers: nat, observed: Seq<Exit>, exit: Exit) -> Seq<Exit> {
    if observed.len() < unit_count(receivers) {
        observed.push(exit)
    } else {
        observed
    }
}

/// The exits on record once a started run with `receivers` receivers has
/// been told of `exits`, one after the other.
pub open spec fn recorded(receivers: nat, exits: Seq<Exit>) -> Seq<Exit>
    decreases exits.len(),
{
    if exits.len() == 0 {
        Seq::empty()
    } else {
        observed_after(receivers, recorded(receivers, exits.drop_last()), exits.last())
    }
}

/// What is on record of a run are the exits of its units and no more: the
/// first `receivers + 2` exits that it was told of.
pub proof fn lemma_recorded_is_prefix(receivers: nat, exits: Seq<Exit>)
    ensures
        recorded(receivers, exits) == if exits.len() <= receivers + 2 {
            exits
        } else {
            exits.take((receivers + 2) as int)
        },
    decreases exits.len(),
{
    if exits.len() > 0 {
        lemma_recorded_is_prefix(receivers, exits.drop_last());
        if exits.len() <= receivers + 2 {
            assert(exits.drop_last().push(exits.last()) =~= exits);
        } else if exits.len() == receivers + 3 {
            assert(exits.drop_last() =~= exits.take((receivers + 2) as int));
        } else {
            assert(exits.drop_last().take((receivers + 2) as int) =~= exits.take((receivers + 2) as int));
        }
    }
}

/// A run with `receivers` receivers is over once it has been told of
/// `receivers + 2` exits and not before, however the units stopped: a
/// fault does not shorten the wait. Until then the unit waited for is the
/// next one of the start order.
pub proof fn lemma_run_ends_after_every_unit(receivers: nat, exits: Seq<Exit>)
    ensures
        step_after(receivers, recorded(receivers, exits)) is Finish <==> exits.len() >= receivers
            + 2,
        exits.len() < receivers + 2 ==> step_after(receivers, recorded(receivers, exits))
            == Step::Await(Unit::at(exits.len() as int)),
{
    lemma_recorded_is_prefix(receivers, exits);
}

/// Where exactly one of the `receivers + 2` units of a run faults and the
/// others stop cleanly, the run ends in the fault of that unit, whichever
/// unit it is.
pub proof fn lemma_run_surfaces_single_fault(receivers: nat, exits: Seq<Exit>, culprit: int)
    requires
        exits.len() == receivers + 2,
        0 <= culprit < exits.len(),
        exits[culprit] == Exit::Fault,
        forall|other: int|
            0 <= other < exits.len() && other != culprit ==> exits[other] == Exit::Clean,
    ensures
        step_after(receivers, recorded(receivers, exits)) == Step::Finish(
            Outcome::Faulted(Unit::at(culprit)),
        ),
{
    lemma_recorded_is_prefix(receivers, exits);
    lemma_single_fault_is_surfaced(exits, culprit);
}

/// Where every one of the `receivers + 2` units of a run stops cleanly,
/// the run ends in a clean completion.
pub proof fn lemma_run_of_clean_exits_completes(receivers: nat, exits: Seq<Exit>)
    requires
        exits.len() == receivers + 2,
        forall|position: int| 0 <= position < exits.len() ==> exits[position] == Exit::Clean,
    ensures
        step_after(receivers, recorded(receivers, exits)) == Step::Finish(Outcome::Completed),
{
    lemma_recorded_is_prefix(receivers, exits);
    lemma_fault_is_never_reported_clean(exits);
}

/// The assembled components, and, once they run, the record of how they
/// stopped.
pub struct Runner {
    db: Option<Engine>,
    recv: Vec<RecvRunnerKind>,
    receivers: usize,
    observed: Vec<Exit>,
}

impl Runner {
    /// The engine, for as long as the runner holds it: until it is started.
    pub closed spec fn engine(&self) -> Option<Engine> {
        self.db
    }

    /// The receivers that the runner holds: none once it is started.
    pub closed spec fn receivers(&self) -> Seq<RecvRunnerKind> {
        if self.db is Some {
            self.recv@
        } else {
            Seq::empty()
        }
    }

    /// Number of receivers the runner was assembled with.
    pub closed spec fn spec_receiver_count(&self) -> usize {
        if self.db is Some {
            self.recv.len()
        } else {
            self.receivers
        }
    }

    /// Exits of the units waited for so far, in start order.
    pub closed spec fn observed(&self) -> Seq<Exit> {
        if self.db is Some {
            Seq::empty()
        } else {
            self.observed@
        }
    }

    pub open spec fn spec_phase(&self) -> Phase {
        if self.engine() is Some {
            Phase::Assembled
        } else if self.observed().len() < unit_count(self.receiver_count() as nat) {
            Phase::Running
        } else {
            match verdict(self.observed()) {
                Outcome::Completed => Phase::Completed,
                Outcome::Faulted(_) => Phase::Faulted,
            }
        }
    }

    pub open spec fn spec_next_step(&self) -> Step {
        if self.engine() is Some {
            Step::Launch
        } else {
            step_after(self.receiver_count() as nat, self.observed())
        }
    }

    /// Assembles a runner from an engine and the receivers built for it.
    pub fn new(db: Engine, recv: Vec<RecvRunnerKind>) -> (runner: Runner)
        ensures
            runner.engine() == Some(db),
            runner.receivers() == recv@,
            runner.receiver_count() == recv.len(),
            runner.observed() == Seq::<Exit>::empty(),
    {
        let receivers = recv.len();
        Runner { db: Some(db), recv, receivers, observed: Vec::new() }
    }

    #[verifier::when_used_as_spec(spec_receiver_count)]
    pub fn receiver_count(&self) -> (count: usize)
        ensures
            count == self.spec_receiver_count(),
    {
        if self.db.is_some() {
            self.recv.len()
        } else {
            self.receivers
        }
    }

    /// Whether every unit of a started runner has been waited for.
    fn all_stopped(&self) -> (done: bool)
        requires
            self.engine() is None,
        ensures
            done == (self.observed().len() >= unit_count(self.receiver_count() as nat)),
    {
        self.observed.len() >= 2 && self.observed.len() - 2 >= self.receivers
    }

    #[verifier::when_used_as_spec(spec_phase)]
    pub fn phase(&self) -> (phase: Phase)
        ensures
            phase == self.spec_phase(),
    {
        if self.db.is_some() {
            Phase::Assembled
        } else if !self.all_stopped() {
            Phase::Running
        } else {
            match conclude(&self.observed) {
                Outcome::Completed => Phase::Completed,
                Outcome::Faulted(_) => Phase::Faulted,
            }
        }
    }

    #[verifier::when_used_as_spec(spec_next_step)]
    pub fn next_step(&self) -> (step: Step)
        ensures
            step == self.spec_next_step(),
    {
        if self.db.is_some() {
            Step::Launch
        } else if !self.all_stopped() {
            Step::Await(Unit::nth(self.observed.len()))
        } else {
            Step::Finish(conclude(&self.observed))
        }
    }

    /// Enters `Running`: hands over the engine and every receiver, each to
    /// be run as a unit of its own, and begins to wait for the first unit.
    pub fn start(&mut self) -> (launch: Launch)
        requires
            old(self).phase() == Phase::Assembled,
        ensures
            Some(launch.engine) == old(self).engine(),
            launch.receivers@ == old(self).receivers(),
            launch.receivers@.len() == final(self).receiver_count(),
            final(self).receiver_count() == old(self).receiver_count(),
            final(self).engine() is None,
            final(self).receivers() == Seq::<RecvRunnerKind>::empty(),
            final(self).observed() == Seq::<Exit>::empty(),
    {
        let engine = self.db.take().unwrap();
        let mut receivers: Vec<RecvRunnerKind> = Vec::new();
        std::mem::swap(&mut self.recv, &mut receivers);
        self.receivers = receivers.len();
        self.observed = Vec::new();
        Launch { engine, receivers }
    }

    /// Takes note that the unit waited for has stopped, and says what is to
    /// be done next. Outside `Running` nothing is waited for, and the exit
    /// is not recorded.
    pub fn record(&mut self, exit: Exit) -> (step: Step)
        ensures
            final(self).engine() == old(self).engine(),
            final(self).receivers() == old(self).receivers(),
            final(self).receiver_count() == old(self).receiver_count(),
            final(self).observed() == if old(self).phase() == Phase::Running {
                old(self).observed().push(exit)
            } else {
                old(self).observed()
            },
            old(self).engine() is None ==> final(self).observed() == observed_after(
                old(self).receiver_count() as nat,
                old(self).observed(),
                exit,
            ),
            step == final(self).next_step(),
    {
        if self.db.is_none() && !self.all_stopped() {
            self.observed.push(exit);
        }
        self.next_step()
    }
}

} // verus!
