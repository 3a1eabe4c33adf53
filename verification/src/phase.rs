//! The phases of the signal plan: what each one lights, and for how long.

use crate::lamps::{Aspect, Axis, Direction, LampColor, LampVector};
use vstd::prelude::*;

verus! {

/// Seconds of red and yellow together before green.
pub const PREPARE_SECS: u64 = 1;

/// Seconds of green.
pub const GREEN_SECS: u64 = 10;

/// Seconds of yellow alone after green.
pub const YELLOW_SECS: u64 = 3;

/// Seconds of all red between the two axes.
pub const CLEARANCE_SECS: u64 = 1;

/// One lamp configuration of the plan. `AllRed` occurs twice in a cycle, once
/// after each axis; the two occurrences light the same lamps and are told
/// apart only by their position in the cycle.
#[derive(Clone, Copy, Debug, PartialEq, Eq, Structural)]
pub enum Phase {
    NsRedYellow,
    NsGreen,
    NsYellow,
    AllRed,
    EwRedYellow,
    EwGreen,
    EwYellow,
}

impl Phase {
    /// The axis that the phase serves, or `None` while all directions wait.
    pub open spec fn spec_active_axis(self) -> Option<Axis> {
        match self {
            Phase::NsRedYellow | Phase::NsGreen | Phase::NsYellow => Some(Axis::NorthSouth),
            Phase::EwRedYellow | Phase::EwGreen | Phase::EwYellow => Some(Axis::EastWest),
            Phase::AllRed => None,
        }
    }

    #[verifier::when_used_as_spec(spec_active_axis)]
    pub fn active_axis(self) -> (axis: Option<Axis>)
        ensures
            axis == self.spec_active_axis(),
    {
        match self {
            Phase::NsRedYellow | Phase::NsGreen | Phase::NsYellow => Some(Axis::NorthSouth),
            Phase::EwRedYellow | Phase::EwGreen | Phase::EwYellow => Some(Axis::EastWest),
            Phase::AllRed => None,
        }
    }

    /// What the directions of the active axis are shown.
    pub open spec fn active_aspect(self) -> Aspect {
        match self {
            Phase::NsRedYellow | Phase::EwRedYellow => Aspect::RedYellow,
            Phase::NsGreen | Phase::EwGreen => Aspect::Green,
            Phase::NsYellow | Phase::EwYellow => Aspect::Yellow,
            Phase::AllRed => Aspect::Red,
        }
    }

    /// What `direction` is shown: the active axis gets the phase's aspect,
    /// every other direction red.
    pub open spec fn spec_aspect_for(self, direction: Direction) -> Aspect {
        if self.spec_active_axis() == Some(direction.spec_axis()) {
            self.active_aspect()
        } else {
            Aspect::Red
        }
    }

    #[verifier::when_used_as_spec(spec_aspect_for)]
    pub fn aspect_for(self, direction: Direction) -> (aspect: Aspect)
        ensures
            aspect == self.spec_aspect_for(direction),
    {
        let north_south = match direction {
            Direction::North | Direction::South => true,
            Direction::East | Direction::West => false,
        };
        match self {
            Phase::NsRedYellow => if north_south { Aspect::RedYellow } else { Aspect::Red },
            Phase::NsGreen => if north_south { Aspect::Green } else { Aspect::Red },
            Phase::NsYellow => if north_south { Aspect::Yellow } else { Aspect::Red },
            Phase::AllRed => Aspect::Red,
            Phase::EwRedYellow => if north_south { Aspect::Red } else { Aspect::RedYellow },
            Phase::EwGreen => if north_south { Aspect::Red } else { Aspect::Green },
            Phase::EwYellow => if north_south { Aspect::Red } else { Aspect::Yellow },
        }
    }

    /// How long the phase is held, in whole seconds.
    pub open spec fn spec_duration_secs(self) -> u64 {
        match self {
            Phase::NsRedYellow | Phase::EwRedYellow => PREPARE_SECS,
            Phase::NsGreen | Phase::EwGreen => GREEN_SECS,
            Phase::NsYellow | Phase::EwYellow => YELLOW_SECS,
            Phase::AllRed => CLEARANCE_SECS,
        }
    }

    #[verifier::when_used_as_spec(spec_duration_secs)]
    pub fn duration_secs(self) -> (secs: u64)
        ensures
            secs == self.spec_duration_secs(),
    {
        match self {
            Phase::NsRedYellow | Phase::EwRedYellow => PREPARE_SECS,
            Phase::NsGreen | Phase::EwGreen => GREEN_SECS,
            Phase::NsYellow | Phase::EwYellow => YELLOW_SECS,
            Phase::AllRed => CLEARANCE_SECS,
        }
    }
}

/// The lamps of `phase`: each direction's signal shows the aspect that the
/// phase gives it.
pub open spec fn lamp_vector(phase: Phase) -> LampVector {
    LampVector {
        north: phase.spec_aspect_for(Direction::North).spec_signal(),
        east: phase.spec_aspect_for(Direction::East).spec_signal(),
        south: phase.spec_aspect_for(Direction::South).spec_signal(),
        west: phase.spec_aspect_for(Direction::West).spec_signal(),
    }
}

/// Writes all three lamps of one direction.
fn set_signal(lamps: &mut LampVector, direction: Direction, red: bool, yellow: bool, green: bool)
    ensures
        *final(lamps) == old(lamps).with_lamp(direction, LampColor::Red, red).with_lamp(
            direction,
            LampColor::Yellow,
            yellow,
        ).with_lamp(direction, LampColor::Green, green),
{
    lamps.set(direction, LampColor::Red, red);
    lamps.set(direction, LampColor::Yellow, yellow);
    lamps.set(direction, LampColor::Green, green);
}

/// North and south red with yellow, east and west red.
pub fn set_ns_red_yellow(lamps: &mut LampVector)
    ensures
        *final(lamps) == lamp_vector(Phase::NsRedYellow),
{
    set_signal(lamps, Direction::North, true, true, false);
    set_signal(lamps, Direction::South, true, true, false);
    set_signal(lamps, Direction::East, true, false, false);
    set_signal(lamps, Direction::West, true, false, false);
}

/// North and south green, east and west red.
pub fn set_ns_green(lamps: &mut LampVector)
    ensures
        *final(lamps) == lamp_vector(Phase::NsGreen),
{
    set_signal(lamps, Direction::North, false, false, true);
    set_signal(lamps, Direction::South, false, false, true);
    set_signal(lamps, Direction::East, true, false, false);
    set_signal(lamps, Direction::West, true, false, false);
}

/// North and south yellow alone, east and west red.
pub fn set_ns_yellow(lamps: &mut LampVector)
    ensures
        *final(lamps) == lamp_vector(Phase::NsYellow),
{
    set_signal(lamps, Direction::North, false, true, false);
    set_signal(lamps, Direction::South, false, true, false);
    set_signal(lamps, Direction::East, true, false, false);
    set_signal(lamps, Direction::West, true, false, false);
}

/// East and west red with yellow, north and south red.
pub fn set_ew_red_yellow(lamps: &mut LampVector)
    ensures
        *final(lamps) == lamp_vector(Phase::EwRedYellow),
{
    set_signal(lamps, Direction::East, true, true, false);
    set_signal(lamps, Direction::West, true, true, false);
    set_signal(lamps, Direction::North, true, false, false);
    set_signal(lamps, Direction::South, true, false, false);
}

/// East and west green, north and south red.
pub fn set_ew_green(lamps: &mut LampVector)
    ensures
        *final(lamps) == lamp_vector(Phase::EwGreen),
{
    set_signal(lamps, Direction::East, false, false, true);
    set_signal(lamps, Direction::West, false, false, true);
    set_signal(lamps, Direction::North, true, false, false);
    set_signal(lamps, Direction::South, true, false, false);
}

/// East and west yellow alone, north and south red.
pub fn set_ew_yellow(lamps: &mut LampVector)
    ensures
        *final(lamps) == lamp_vector(Phase::EwYellow),
{
    set_signal(lamps, Direction::East, false, true, false);
    set_signal(lamps, Direction::West, false, true, false);
    set_signal(lamps, Direction::North, true, false, false);
    set_signal(lamps, Direction::South, true, false, false);
}

/// Every direction red: the safe state at power-up and between the axes.
pub fn all_red(lamps: &mut LampVector)
    ensures
        *final(lamps) == lamp_vector(Phase::AllRed),
{
    set_signal(lamps, Direction::North, true, false, false);
    set_signal(lamps, Direction::South, true, false, false);
    set_signal(lamps, Direction::East, true, false, false);
    set_signal(lamps, Direction::West, true, false, false);
}

/// Overwrites `lamps` with the configuration of `phase`. Every one of the
/// twelve lamps is written, so nothing of the previous content remains.
pub fn apply_phase(phase: Phase, lamps: &mut LampVector)
    ensures
        *final(lamps) == lamp_vector(phase),
{
    match phase {
        Phase::NsRedYellow => set_ns_red_yellow(lamps),
        Phase::NsGreen => set_ns_green(lamps),
        Phase::NsYellow => set_ns_yellow(lamps),
        Phase::AllRed => all_red(lamps),
        Phase::EwRedYellow => set_ew_red_yellow(lamps),
        Phase::EwGreen => set_ew_green(lamps),
        Phase::EwYellow => set_ew_yellow(lamps),
    }
}

/// The complete lamp vector of `phase`: all twelve lamps are given their
/// level, none is left at a default.
pub fn phase_to_lamp_vector(phase: Phase) -> (lamps: LampVector)
    ensures
        lamps == lamp_vector(phase),
        forall|d: Direction, c: LampColor| #[trigger]
            lamps.lit(d, c) == phase.spec_aspect_for(d).spec_signal().spec_lamp(c),
        lamps.spec_is_conflict_free(),
{
    let mut lamps = LampVector::dark();
    apply_phase(phase, &mut lamps);
    lamps
}

/// Safety: in every phase at least one axis is held at red only. The axis
/// that the phase does not serve is that axis, and in the clearance phase both
/// are, so yellow or green never shows on both roads at once.
pub proof fn lemma_phase_conflict_free(phase: Phase)
    ensures
        lamp_vector(phase).spec_is_conflict_free(),
        !(lamp_vector(phase).axis_shows_non_red(Axis::NorthSouth) && lamp_vector(
            phase,
        ).axis_shows_non_red(Axis::EastWest)),
        phase.spec_active_axis() matches Some(axis) ==> lamp_vector(phase).axis_red_only(
            axis.spec_other(),
        ),
        phase.spec_active_axis() is None ==> lamp_vector(phase).spec_is_all_red(),
{
}

/// Exclusivity: a direction has exactly one lamp lit, except on the active
/// axis of the two preparation phases, where red and yellow are lit together
/// and green is off.
pub proof fn lemma_phase_exclusive(phase: Phase, direction: Direction)
    ensures
        ({
            let signal = lamp_vector(phase).spec_signal(direction);
            let preparing = (phase == Phase::NsRedYellow || phase == Phase::EwRedYellow)
                && phase.spec_active_axis() == Some(direction.spec_axis());
            if preparing {
                signal.red && signal.yellow && !signal.green
            } else {
                signal.lit_count() == 1
            }
        }),
{
}

/// Every direction is shown an aspect of the convention in every phase, the
/// one that the phase gives it; both directions of an axis are shown the same.
pub proof fn lemma_phase_shows_aspects(phase: Phase, direction: Direction)
    ensures
        lamp_vector(phase).spec_signal(direction).spec_aspect() == Some(
            phase.spec_aspect_for(direction),
        ),
        forall|other: Direction|
            other.spec_axis() == direction.spec_axis() ==> #[trigger] lamp_vector(phase).spec_signal(
                other,
            ) == lamp_vector(phase).spec_signal(direction),
{
}

} // verus!
