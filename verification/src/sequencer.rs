//! The signal plan as a cycle of eight positions, and the state machine that
//! walks it.
//!
//! The sequencer decides; the host acts. Each [`Action`] tells the host which
//! lamps to show and for how long, and the host answers with an [`Event`] once
//! it has done so, or as soon as a write to a line failed.

use crate::lamps::{Axis, Direction, LampColor, LampVector};
use crate::phase::{all_red, lamp_vector, phase_to_lamp_vector, Phase};
use vstd::prelude::*;

verus! {

/// Number of positions in one cycle.
pub const CYCLE_LEN: usize = 8;

/// Length of one cycle in seconds.
pub const CYCLE_SECS: u64 = 30;

/// The phases of one cycle in order. The clearance phase stands at two
/// positions, after each axis, and both count.
pub open spec fn cycle() -> Seq<Phase> {
    seq![
        Phase::NsRedYellow,
        Phase::NsGreen,
        Phase::NsYellow,
        Phase::AllRed,
        Phase::EwRedYellow,
        Phase::EwGreen,
        Phase::EwYellow,
        Phase::AllRed,
    ]
}

/// The phase at a position counted from the start of the first cycle; the
/// plan repeats every eight positions.
pub open spec fn cycle_phase(index: nat) -> Phase {
    cycle()[(index % 8) as int]
}

/// Computes [`cycle_phase`]: defined for every index, whatever its size.
pub fn phase_at(index: u64) -> (phase: Phase)
    ensures
        phase == cycle_phase(index as nat),
{
    match index % 8 {
        0 => Phase::NsRedYellow,
        1 => Phase::NsGreen,
        2 => Phase::NsYellow,
        3 => Phase::AllRed,
        4 => Phase::EwRedYellow,
        5 => Phase::EwGreen,
        6 => Phase::EwYellow,
        _ => Phase::AllRed,
    }
}

/// Seconds from the start of a cycle until `position` begins: the durations
/// of all positions before it, added up.
pub open spec fn start_secs(position: nat) -> nat
    decreases position,
{
    if position == 0 {
        0
    } else {
        start_secs((position - 1) as nat) + cycle_phase(
            (position - 1) as nat,
        ).spec_duration_secs() as nat
    }
}

/// When each position of a cycle begins, in seconds from the cycle's start.
pub proof fn lemma_start_secs_values()
    ensures
        start_secs(0) == 0,
        start_secs(1) == 1,
        start_secs(2) == 11,
        start_secs(3) == 14,
        start_secs(4) == 15,
        start_secs(5) == 16,
        start_secs(6) == 26,
        start_secs(7) == 29,
        start_secs(8) == 30,
{
    reveal_with_fuel(start_secs, 9);
}

/// The durations of the eight positions of a cycle add up to thirty seconds.
pub proof fn lemma_cycle_takes_thirty_seconds()
    ensures
        start_secs(CYCLE_LEN as nat) == CYCLE_SECS,
        start_secs(8) == 1 + 10 + 3 + 1 + 1 + 10 + 3 + 1,
{
    lemma_start_secs_values();
}

/// Eight positions on, thirty seconds have passed: `start_secs` counts on
/// through cycle after cycle.
pub proof fn lemma_start_secs_periodic(position: nat)
    ensures
        start_secs(position + 8) == start_secs(position) + CYCLE_SECS,
    decreases position,
{
    if position == 0 {
        lemma_start_secs_values();
    } else {
        lemma_start_secs_periodic((position - 1) as nat);
        assert(cycle_phase((position + 7) as nat) == cycle_phase((position - 1) as nat));
    }
}

/// Only one position holds a given moment of the cycle.
pub proof fn lemma_position_is_unique(moment: nat, first: nat, second: nat)
    requires
        first < CYCLE_LEN,
        second < CYCLE_LEN,
        start_secs(first) <= moment < start_secs(first + 1),
        start_secs(second) <= moment < start_secs(second + 1),
    ensures
        first == second,
{
    lemma_start_secs_values();
}

/// The position that is showing `elapsed_secs` seconds after the first cycle
/// began: the one whose time span holds that moment of the cycle.
pub fn position_at(elapsed_secs: u64) -> (position: usize)
    ensures
        position < CYCLE_LEN,
        start_secs(position as nat) <= elapsed_secs % CYCLE_SECS < start_secs((position + 1) as nat),
{
    let moment: u64 = elapsed_secs % CYCLE_SECS;
    let mut position: usize = 0;
    let mut begins: u64 = 0;
    proof {
        lemma_start_secs_values();
    }
    while position < CYCLE_LEN - 1 && begins + phase_at(position as u64).duration_secs() <= moment
        invariant
            position < CYCLE_LEN,
            begins == start_secs(position as nat),
            begins <= moment < CYCLE_SECS,
            start_secs(8) == 30,
        decreases CYCLE_LEN - position,
    {
        begins = begins + phase_at(position as u64).duration_secs();
        position = position + 1;
    }
    position
}

/// A write to an output line could not be completed. There is no other kind
/// of failure, and no recovery from this one.
#[derive(Clone, Copy, Debug, PartialEq, Eq, Structural)]
pub struct LineWriteFault {
    /// The line that could not be written.
    pub line: usize,
}

/// What the host reports after it was given an [`Action`].
#[derive(Clone, Copy, Debug, PartialEq, Eq, Structural)]
pub enum Event {
    /// All twelve lines were written and the hold time has passed.
    Held,
    /// A line could not be written.
    WriteFailed(LineWriteFault),
}

/// What the host is to do next.
#[derive(Clone, Copy, Debug, PartialEq, Eq, Structural)]
pub enum Action {
    /// Write all twelve lamps, then wait `hold_secs` whole seconds, then
    /// report [`Event::Held`]. The writes come first, as one batch; with a
    /// hold time of zero there is nothing to wait for.
    Show { lamps: LampVector, hold_secs: u64 },
    /// Stop for good and hand the fault to the fatal-error handler.
    Halt(LineWriteFault),
}

/// The sequencer's state, as contracts see it.
pub enum SequencerState {
    /// The plan is running; `next` is the position that the next step shows.
    Running { next: nat },
    /// A write failed. This state is never left.
    Halted { fault: LineWriteFault },
}

impl SequencerState {
    /// The state at power-up, once the lamps were told to show all red.
    pub open spec fn initial() -> SequencerState {
        SequencerState::Running { next: 0 }
    }

    /// A running state stands at one of the eight positions.
    pub open spec fn wf(self) -> bool {
        self matches SequencerState::Running { next } ==> next < CYCLE_LEN
    }

    /// The state after the host reported `event`.
    pub open spec fn after(self, event: Event) -> SequencerState {
        match (self, event) {
            (SequencerState::Halted { fault }, _) => SequencerState::Halted { fault },
            (SequencerState::Running { .. }, Event::WriteFailed(fault)) => SequencerState::Halted {
                fault,
            },
            (SequencerState::Running { next }, Event::Held) => SequencerState::Running {
                next: (next + 1) % 8,
            },
        }
    }

    /// What the host is told when it reports `event` in this state.
    pub open spec fn action_on(self, event: Event) -> Action {
        match (self, event) {
            (SequencerState::Halted { fault }, _) => Action::Halt(fault),
            (SequencerState::Running { .. }, Event::WriteFailed(fault)) => Action::Halt(fault),
            (SequencerState::Running { next }, Event::Held) => Action::Show {
                lamps: lamp_vector(cycle_phase(next)),
                hold_secs: cycle_phase(next).spec_duration_secs(),
            },
        }
    }

    /// The state after `steps` actions were carried out without a fault.
    pub open spec fn after_steps(self, steps: nat) -> SequencerState
        decreases steps,
    {
        if steps == 0 {
            self
        } else {
            self.after_steps((steps - 1) as nat).after(Event::Held)
        }
    }
}

/// The first action of all, before the plan starts: every direction red,
/// with no hold time.
pub open spec fn boot_action() -> Action {
    Action::Show { lamps: lamp_vector(Phase::AllRed), hold_secs: 0 }
}

/// The state machine that walks the plan.
#[derive(Debug)]
pub struct Sequencer {
    next: usize,
    fault: Option<LineWriteFault>,
}

impl View for Sequencer {
    type V = SequencerState;

    closed spec fn view(&self) -> SequencerState {
        match self.fault {
            Some(fault) => SequencerState::Halted { fault },
            None => SequencerState::Running { next: self.next as nat },
        }
    }
}

impl Sequencer {
    #[verifier::type_invariant]
    spec fn in_cycle(self) -> bool {
        self.next < CYCLE_LEN
    }

    /// Starts the sequencer and gives the action to carry out at power-up,
    /// which makes the intersection safe before any timed phase begins.
    pub fn new() -> (start: (Sequencer, Action))
        ensures
            start.0@ == SequencerState::initial(),
            start.1 == boot_action(),
    {
        let mut lamps = LampVector::dark();
        all_red(&mut lamps);
        (Sequencer { next: 0, fault: None }, Action::Show { lamps, hold_secs: 0 })
    }

    /// Takes the host's report on the last action and gives the next one.
    ///
    /// While the plan runs, each report of [`Event::Held`] moves on by exactly
    /// one position, in order and around the cycle for ever. The first report
    /// of a fault halts the sequencer; from then on every step answers with
    /// that fault and nothing else.
    pub fn step(&mut self, event: Event) -> (action: Action)
        ensures
            final(self)@ == old(self)@.after(event),
            action == old(self)@.action_on(event),
            old(self)@.wf(),
            final(self)@.wf(),
            action matches Action::Show { lamps, .. } ==> lamps.spec_is_conflict_free(),
    {
        proof {
            use_type_invariant(&*self);
        }
        if let Some(fault) = self.fault {
            return Action::Halt(fault);
        }
        match event {
            Event::WriteFailed(fault) => {
                self.fault = Some(fault);
                Action::Halt(fault)
            },
            Event::Held => {
                let phase = phase_at(self.next as u64);
                self.next = if self.next + 1 == CYCLE_LEN {
                    0
                } else {
                    self.next + 1
                };
                Action::Show { lamps: phase_to_lamp_vector(phase), hold_secs: phase.duration_secs() }
            },
        }
    }

    /// The fault that halted the sequencer, if one did.
    pub fn fault(&self) -> (fault: Option<LineWriteFault>)
        ensures
            match fault {
                Some(fault) => self@ == (SequencerState::Halted { fault }),
                None => self@ is Running,
            },
    {
        self.fault
    }

    /// The position that the next step shows, or `None` once halted.
    pub fn next_position(&self) -> (position: Option<usize>)
        ensures
            match position {
                Some(next) => self@ == (SequencerState::Running { next: next as nat }) && next
                    < CYCLE_LEN,
                None => self@ is Halted,
            },
    {
        proof {
            use_type_invariant(self);
        }
        match self.fault {
            Some(_) => None,
            None => Some(self.next),
        }
    }
}

/// No position is skipped and none comes out of order: from a running state
/// at position `next`, `steps` fault-free steps lead to position `next + steps`,
/// counted around the cycle.
pub proof fn lemma_steps_advance_in_order(next: nat, steps: nat)
    requires
        next < CYCLE_LEN,
    ensures
        (SequencerState::Running { next }).after_steps(steps) == (SequencerState::Running {
            next: (next + steps) % 8,
        }),
    decreases steps,
{
    if steps > 0 {
        lemma_steps_advance_in_order(next, (steps - 1) as nat);
    }
}

/// The action number `steps` after power-up, counting from zero, shows the
/// phase at that index of the plan and holds it for the phase's duration.
pub proof fn lemma_action_follows_plan(steps: nat)
    ensures
        SequencerState::initial().after_steps(steps).action_on(Event::Held) == (Action::Show {
            lamps: lamp_vector(cycle_phase(steps)),
            hold_secs: cycle_phase(steps).spec_duration_secs(),
        }),
{
    lemma_steps_advance_in_order(0, steps);
}

/// The sequencer keeps the plan's time. The action number `steps` after
/// power-up is due once `start_secs(steps)` seconds have been held, the next
/// one its own hold time later.
pub proof fn lemma_actions_keep_time(steps: nat)
    ensures
        SequencerState::initial().after_steps(steps).action_on(Event::Held) matches Action::Show {
            hold_secs,
            ..
        } && start_secs(steps + 1) == start_secs(steps) + hold_secs,
{
    lemma_action_follows_plan(steps);
}

/// The moment at which the action number `steps` is due lies in the time
/// span of the position that the action shows: looking the moment up in the
/// plan gives that position back.
pub proof fn lemma_due_time_lies_in_position(steps: nat)
    ensures
        start_secs(steps) == CYCLE_SECS * (steps / 8) + start_secs(steps % 8),
        start_secs(steps % 8) <= start_secs(steps) % (CYCLE_SECS as nat) < start_secs(
            steps % 8 + 1,
        ),
    decreases steps,
{
    lemma_start_secs_values();
    if steps >= 8 {
        let before = (steps - 8) as nat;
        lemma_due_time_lies_in_position(before);
        lemma_start_secs_periodic(before);
        assert(before / 8 == steps / 8 - 1);
        assert(before % 8 == steps % 8);
    }
    let within = start_secs(steps % 8);
    assert(0 <= within < 30);
    assert(start_secs(steps) == 30 * (steps / 8) + within);
    assert(start_secs(steps) % 30 == within);
}

/// After the eight positions of a cycle the sequencer is back where it
/// started: the lamps show all red, as they did at power-up, and the next
/// position is the first one.
pub proof fn lemma_cycle_returns_to_start()
    ensures
        SequencerState::initial().after_steps(8) == SequencerState::initial(),
        SequencerState::initial().after_steps(7).action_on(Event::Held) == (Action::Show {
            lamps: lamp_vector(Phase::AllRed),
            hold_secs: 1,
        }),
        boot_action() matches Action::Show { lamps, .. } && lamps == lamp_vector(Phase::AllRed),
{
    lemma_steps_advance_in_order(0, 8);
    lemma_steps_advance_in_order(0, 7);
}

/// The plan repeats every eight steps, from wherever it stands.
pub proof fn lemma_plan_is_periodic(state: SequencerState, steps: nat)
    requires
        state.wf(),
    ensures
        state.after_steps(steps + 8) == state.after_steps(steps),
{
    match state {
        SequencerState::Running { next } => {
            lemma_steps_advance_in_order(next, steps);
            lemma_steps_advance_in_order(next, steps + 8);
        },
        SequencerState::Halted { .. } => {
            lemma_halt_is_final(state, steps + 8);
            lemma_halt_is_final(state, steps);
        },
    }
}

/// A halted sequencer stays halted on the same fault, whatever is reported.
pub proof fn lemma_halt_is_final(state: SequencerState, steps: nat)
    requires
        state is Halted,
    ensures
        state.after_steps(steps) == state,
        forall|event: Event| #[trigger] state.after(event) == state,
        forall|event: Event| #[trigger] state.action_on(event) == Action::Halt(state->fault),
    decreases steps,
{
    if steps > 0 {
        lemma_halt_is_final(state, (steps - 1) as nat);
    }
}

/// Whatever the state and the report, the lamps that the host is told to
/// show keep one axis at red only, and every direction shows an aspect of
/// the convention.
pub proof fn lemma_every_action_is_safe(state: SequencerState, event: Event)
    ensures
        state.action_on(event) matches Action::Show { lamps, .. } ==> {
            &&& lamps.spec_is_conflict_free()
            &&& !(lamps.axis_shows_non_red(Axis::NorthSouth) && lamps.axis_shows_non_red(
                Axis::EastWest,
            ))
            &&& forall|d: Direction| #[trigger] lamps.spec_signal(d).spec_aspect() is Some
        },
        boot_action() matches Action::Show { lamps, .. } && lamps.spec_is_all_red(),
{
}

/// From one position to the next, each signal head either keeps its aspect
/// or moves on to the one that follows it: red, red and yellow, green,
/// yellow, red.
pub proof fn lemma_aspects_follow_convention(index: nat, direction: Direction)
    ensures
        ({
            let now = cycle_phase(index).spec_aspect_for(direction);
            let then = cycle_phase(index + 1).spec_aspect_for(direction);
            then == now || then == now.spec_successor()
        }),
{
}

/// `mixed` has every lamp either as in `from` or as in `to`: a state that the
/// lines can be in while a batch of writes is under way.
pub open spec fn is_between(from: LampVector, to: LampVector, mixed: LampVector) -> bool {
    forall|d: Direction, c: LampColor| #[trigger]
        mixed.lit(d, c) == from.lit(d, c) || mixed.lit(d, c) == to.lit(d, c)
}

/// The order of the writes within a batch does not matter for safety: on the
/// way from one position to the next one axis is red only before and after,
/// so it is red only in between. The step from power-up into the first
/// position is the step out of the last one, which shows the same lamps.
pub proof fn lemma_partial_batch_is_safe(index: nat, mixed: LampVector)
    requires
        is_between(lamp_vector(cycle_phase(index)), lamp_vector(cycle_phase(index + 1)), mixed),
    ensures
        mixed.spec_is_conflict_free(),
{
    lemma_lamps_of_mixed(mixed);
}

/// While the very first batch is written onto dark lines, no yellow and no
/// green lamp is lit at any moment.
pub proof fn lemma_partial_boot_batch_is_safe(mixed: LampVector)
    requires
        is_between(LampVector::spec_dark(), lamp_vector(Phase::AllRed), mixed),
    ensures
        !mixed.axis_shows_non_red(Axis::NorthSouth),
        !mixed.axis_shows_non_red(Axis::EastWest),
{
    lemma_lamps_of_mixed(mixed);
}

/// Names each of the twelve lamps of `mixed`, so that what is known of all
/// lamps is known of each.
proof fn lemma_lamps_of_mixed(mixed: LampVector)
    ensures
        mixed.lit(Direction::North, LampColor::Red) == mixed.north.red,
        mixed.lit(Direction::North, LampColor::Yellow) == mixed.north.yellow,
        mixed.lit(Direction::North, LampColor::Green) == mixed.north.green,
        mixed.lit(Direction::East, LampColor::Red) == mixed.east.red,
        mixed.lit(Direction::East, LampColor::Yellow) == mixed.east.yellow,
        mixed.lit(Direction::East, LampColor::Green) == mixed.east.green,
        mixed.lit(Direction::South, LampColor::Red) == mixed.south.red,
        mixed.lit(Direction::South, LampColor::Yellow) == mixed.south.yellow,
        mixed.lit(Direction::South, LampColor::Green) == mixed.south.green,
        mixed.lit(Direction::West, LampColor::Red) == mixed.west.red,
        mixed.lit(Direction::West, LampColor::Yellow) == mixed.west.yellow,
        mixed.lit(Direction::West, LampColor::Green) == mixed.west.green,
{
}

} // verus!
