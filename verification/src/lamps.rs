//! The twelve lamps of the intersection: four directions, three colours each.
//!
//! A [`LampVector`] is a complete assignment of on/off to all twelve lamps. It
//! is a plain value: the host copies it onto the output lines, it is never read
//! back from them.

use vstd::prelude::*;

verus! {

/// Number of output lines: one per direction and colour.
pub const LINE_COUNT: usize = 12;

/// An approach to the intersection.
#[derive(Clone, Copy, Debug, PartialEq, Eq, Structural)]
pub enum Direction {
    North,
    East,
    South,
    West,
}

/// One of the two roads that cross. Directions on the same axis never conflict.
#[derive(Clone, Copy, Debug, PartialEq, Eq, Structural)]
pub enum Axis {
    NorthSouth,
    EastWest,
}

/// The colour of a single lamp.
#[derive(Clone, Copy, Debug, PartialEq, Eq, Structural)]
pub enum LampColor {
    Red,
    Yellow,
    Green,
}

/// What a driver reads off one signal head under the German convention.
#[derive(Clone, Copy, Debug, PartialEq, Eq, Structural)]
pub enum Aspect {
    /// Red alone: stop.
    Red,
    /// Red and yellow together: get ready, green follows.
    RedYellow,
    /// Green alone: go.
    Green,
    /// Yellow alone: stop if possible, red follows.
    Yellow,
}

/// The three lamps of one direction.
#[derive(Clone, Copy, Debug, PartialEq, Eq, Structural)]
pub struct Signal {
    pub red: bool,
    pub yellow: bool,
    pub green: bool,
}

/// The state of all twelve lamps.
#[derive(Clone, Copy, Debug, PartialEq, Eq, Structural)]
pub struct LampVector {
    pub north: Signal,
    pub east: Signal,
    pub south: Signal,
    pub west: Signal,
}

impl Axis {
    /// The axis that crosses this one.
    pub open spec fn spec_other(self) -> Axis {
        match self {
            Axis::NorthSouth => Axis::EastWest,
            Axis::EastWest => Axis::NorthSouth,
        }
    }

    #[verifier::when_used_as_spec(spec_other)]
    pub fn other(self) -> (axis: Axis)
        ensures
            axis == self.spec_other(),
    {
        match self {
            Axis::NorthSouth => Axis::EastWest,
            Axis::EastWest => Axis::NorthSouth,
        }
    }
}

impl Direction {
    /// The road this approach belongs to.
    pub open spec fn spec_axis(self) -> Axis {
        match self {
            Direction::North | Direction::South => Axis::NorthSouth,
            Direction::East | Direction::West => Axis::EastWest,
        }
    }

    #[verifier::when_used_as_spec(spec_axis)]
    pub fn axis(self) -> (axis: Axis)
        ensures
            axis == self.spec_axis(),
    {
        match self {
            Direction::North | Direction::South => Axis::NorthSouth,
            Direction::East | Direction::West => Axis::EastWest,
        }
    }

    /// Position of this direction's block of three lines: clockwise from north.
    pub open spec fn block(self) -> nat {
        match self {
            Direction::North => 0,
            Direction::East => 1,
            Direction::South => 2,
            Direction::West => 3,
        }
    }
}

impl LampColor {
    /// Position of this colour inside a direction's block: top lamp first.
    pub open spec fn offset(self) -> nat {
        match self {
            LampColor::Red => 0,
            LampColor::Yellow => 1,
            LampColor::Green => 2,
        }
    }
}

/// The output line that drives the lamp of `color` facing `direction`:
/// north takes lines 0 to 2, east 3 to 5, south 6 to 8, west 9 to 11, and
/// within each block red comes first, then yellow, then green.
pub open spec fn line_index(direction: Direction, color: LampColor) -> nat {
    3 * direction.block() + color.offset()
}

/// Computes [`line_index`].
pub fn line_of(direction: Direction, color: LampColor) -> (line: usize)
    ensures
        line == line_index(direction, color),
        line < LINE_COUNT,
{
    let base: usize = match direction {
        Direction::North => 0,
        Direction::East => 3,
        Direction::South => 6,
        Direction::West => 9,
    };
    match color {
        LampColor::Red => base,
        LampColor::Yellow => base + 1,
        LampColor::Green => base + 2,
    }
}

/// The lamp that a line drives, or `None` for a line the intersection does not have.
pub fn lamp_of_line(line: usize) -> (lamp: Option<(Direction, LampColor)>)
    ensures
        match lamp {
            Some((direction, color)) => line_index(direction, color) == line,
            None => line >= LINE_COUNT,
        },
{
    if line >= LINE_COUNT {
        return None;
    }
    let direction = if line < 3 {
        Direction::North
    } else if line < 6 {
        Direction::East
    } else if line < 9 {
        Direction::South
    } else {
        Direction::West
    };
    let color = if line % 3 == 0 {
        LampColor::Red
    } else if line % 3 == 1 {
        LampColor::Yellow
    } else {
        LampColor::Green
    };
    Some((direction, color))
}

/// No two lamps share a line.
pub proof fn lemma_line_index_injective(d1: Direction, c1: LampColor, d2: Direction, c2: LampColor)
    requires
        line_index(d1, c1) == line_index(d2, c2),
    ensures
        d1 == d2,
        c1 == c2,
{
}

/// Every one of the twelve lines drives a lamp: together with injectivity,
/// lamps and lines correspond one to one.
pub proof fn lemma_line_drives_a_lamp(line: nat)
    requires
        line < LINE_COUNT,
    ensures
        exists|d: Direction, c: LampColor| #[trigger] line_index(d, c) == line,
{
    let d = if line < 3 {
        Direction::North
    } else if line < 6 {
        Direction::East
    } else if line < 9 {
        Direction::South
    } else {
        Direction::West
    };
    let c = if line % 3 == 0 {
        LampColor::Red
    } else if line % 3 == 1 {
        LampColor::Yellow
    } else {
        LampColor::Green
    };
    assert(line_index(d, c) == line);
}

impl Aspect {
    /// The lamps that show this aspect.
    pub open spec fn spec_signal(self) -> Signal {
        match self {
            Aspect::Red => Signal { red: true, yellow: false, green: false },
            Aspect::RedYellow => Signal { red: true, yellow: true, green: false },
            Aspect::Green => Signal { red: false, yellow: false, green: true },
            Aspect::Yellow => Signal { red: false, yellow: true, green: false },
        }
    }

    #[verifier::when_used_as_spec(spec_signal)]
    pub fn signal(self) -> (signal: Signal)
        ensures
            signal == self.spec_signal(),
    {
        match self {
            Aspect::Red => Signal { red: true, yellow: false, green: false },
            Aspect::RedYellow => Signal { red: true, yellow: true, green: false },
            Aspect::Green => Signal { red: false, yellow: false, green: true },
            Aspect::Yellow => Signal { red: false, yellow: true, green: false },
        }
    }

    /// The aspect that follows this one on a signal head: red, red and
    /// yellow, green, yellow, and red again.
    pub open spec fn spec_successor(self) -> Aspect {
        match self {
            Aspect::Red => Aspect::RedYellow,
            Aspect::RedYellow => Aspect::Green,
            Aspect::Green => Aspect::Yellow,
            Aspect::Yellow => Aspect::Red,
        }
    }

    #[verifier::when_used_as_spec(spec_successor)]
    pub fn successor(self) -> (next: Aspect)
        ensures
            next == self.spec_successor(),
    {
        match self {
            Aspect::Red => Aspect::RedYellow,
            Aspect::RedYellow => Aspect::Green,
            Aspect::Green => Aspect::Yellow,
            Aspect::Yellow => Aspect::Red,
        }
    }
}

impl Signal {
    /// Whether the lamp of `color` is on.
    pub open spec fn spec_lamp(self, color: LampColor) -> bool {
        match color {
            LampColor::Red => self.red,
            LampColor::Yellow => self.yellow,
            LampColor::Green => self.green,
        }
    }

    #[verifier::when_used_as_spec(spec_lamp)]
    pub fn lamp(self, color: LampColor) -> (on: bool)
        ensures
            on == self.spec_lamp(color),
    {
        match color {
            LampColor::Red => self.red,
            LampColor::Yellow => self.yellow,
            LampColor::Green => self.green,
        }
    }

    /// This signal with the lamp of `color` switched to `level`.
    pub open spec fn with_lamp(self, color: LampColor, level: bool) -> Signal {
        match color {
            LampColor::Red => Signal { red: level, ..self },
            LampColor::Yellow => Signal { yellow: level, ..self },
            LampColor::Green => Signal { green: level, ..self },
        }
    }

    /// How many of the three lamps are on.
    pub open spec fn lit_count(self) -> nat {
        let red: nat = if self.red { 1 } else { 0 };
        let yellow: nat = if self.yellow { 1 } else { 0 };
        let green: nat = if self.green { 1 } else { 0 };
        red + yellow + green
    }

    /// Computes [`Signal::lit_count`].
    pub fn count_lit(self) -> (count: u8)
        ensures
            count == self.lit_count(),
    {
        let mut count: u8 = 0;
        if self.red {
            count = count + 1;
        }
        if self.yellow {
            count = count + 1;
        }
        if self.green {
            count = count + 1;
        }
        count
    }

    /// Red on, yellow and green off.
    pub open spec fn spec_is_red_only(self) -> bool {
        self.red && !self.yellow && !self.green
    }

    #[verifier::when_used_as_spec(spec_is_red_only)]
    pub fn is_red_only(self) -> (only: bool)
        ensures
            only == self.spec_is_red_only(),
    {
        self.red && !self.yellow && !self.green
    }

    /// The aspect that these lamps show, or `None` for a combination that the
    /// convention does not know (all dark, green with another lamp).
    pub open spec fn spec_aspect(self) -> Option<Aspect> {
        if self == Aspect::Red.spec_signal() {
            Some(Aspect::Red)
        } else if self == Aspect::RedYellow.spec_signal() {
            Some(Aspect::RedYellow)
        } else if self == Aspect::Green.spec_signal() {
            Some(Aspect::Green)
        } else if self == Aspect::Yellow.spec_signal() {
            Some(Aspect::Yellow)
        } else {
            None
        }
    }

    #[verifier::when_used_as_spec(spec_aspect)]
    pub fn aspect(self) -> (aspect: Option<Aspect>)
        ensures
            aspect == self.spec_aspect(),
    {
        match (self.red, self.yellow, self.green) {
            (true, false, false) => Some(Aspect::Red),
            (true, true, false) => Some(Aspect::RedYellow),
            (false, false, true) => Some(Aspect::Green),
            (false, true, false) => Some(Aspect::Yellow),
            _ => None,
        }
    }
}

impl LampVector {
    /// The three lamps facing `direction`.
    pub open spec fn spec_signal(self, direction: Direction) -> Signal {
        match direction {
            Direction::North => self.north,
            Direction::East => self.east,
            Direction::South => self.south,
            Direction::West => self.west,
        }
    }

    #[verifier::when_used_as_spec(spec_signal)]
    pub fn signal(self, direction: Direction) -> (signal: Signal)
        ensures
            signal == self.spec_signal(direction),
    {
        match direction {
            Direction::North => self.north,
            Direction::East => self.east,
            Direction::South => self.south,
            Direction::West => self.west,
        }
    }

    /// Whether the lamp of `color` facing `direction` is on.
    pub open spec fn lit(self, direction: Direction, color: LampColor) -> bool {
        self.spec_signal(direction).spec_lamp(color)
    }

    /// Computes [`LampVector::lit`].
    pub fn is_lit(self, direction: Direction, color: LampColor) -> (on: bool)
        ensures
            on == self.lit(direction, color),
    {
        self.signal(direction).lamp(color)
    }

    /// This vector with one lamp switched to `level` and the other eleven as they are.
    pub open spec fn with_lamp(self, direction: Direction, color: LampColor, level: bool) -> LampVector {
        match direction {
            Direction::North => LampVector { north: self.north.with_lamp(color, level), ..self },
            Direction::East => LampVector { east: self.east.with_lamp(color, level), ..self },
            Direction::South => LampVector { south: self.south.with_lamp(color, level), ..self },
            Direction::West => LampVector { west: self.west.with_lamp(color, level), ..self },
        }
    }

    /// Switches one lamp to `level`. The write is unconditional: it never
    /// toggles and does not look at the lamp's present state.
    pub fn set(&mut self, direction: Direction, color: LampColor, level: bool)
        ensures
            *final(self) == old(self).with_lamp(direction, color, level),
            final(self).lit(direction, color) == level,
            forall|d: Direction, c: LampColor|
                (d != direction || c != color) ==> #[trigger] final(self).lit(d, c) == old(self).lit(
                    d,
                    c,
                ),
    {
        match direction {
            Direction::North => match color {
                LampColor::Red => self.north.red = level,
                LampColor::Yellow => self.north.yellow = level,
                LampColor::Green => self.north.green = level,
            },
            Direction::East => match color {
                LampColor::Red => self.east.red = level,
                LampColor::Yellow => self.east.yellow = level,
                LampColor::Green => self.east.green = level,
            },
            Direction::South => match color {
                LampColor::Red => self.south.red = level,
                LampColor::Yellow => self.south.yellow = level,
                LampColor::Green => self.south.green = level,
            },
            Direction::West => match color {
                LampColor::Red => self.west.red = level,
                LampColor::Yellow => self.west.yellow = level,
                LampColor::Green => self.west.green = level,
            },
        }
    }

    /// All twelve lamps off, as the lines are before anything was written.
    pub open spec fn spec_dark() -> LampVector {
        let off = Signal { red: false, yellow: false, green: false };
        LampVector { north: off, east: off, south: off, west: off }
    }

    #[verifier::when_used_as_spec(spec_dark)]
    pub fn dark() -> (lamps: LampVector)
        ensures
            lamps == LampVector::spec_dark(),
    {
        let off = Signal { red: false, yellow: false, green: false };
        LampVector { north: off, east: off, south: off, west: off }
    }

    /// Both directions of `axis` show red and nothing else.
    pub open spec fn axis_red_only(self, axis: Axis) -> bool {
        match axis {
            Axis::NorthSouth => self.north.spec_is_red_only() && self.south.spec_is_red_only(),
            Axis::EastWest => self.east.spec_is_red_only() && self.west.spec_is_red_only(),
        }
    }

    /// A lamp other than red (yellow or green) is lit somewhere on `axis`.
    pub open spec fn axis_shows_non_red(self, axis: Axis) -> bool {
        match axis {
            Axis::NorthSouth => self.north.yellow || self.north.green || self.south.yellow
                || self.south.green,
            Axis::EastWest => self.east.yellow || self.east.green || self.west.yellow
                || self.west.green,
        }
    }

    /// At least one of the two axes is held at red only, so the two roads are
    /// never released together.
    pub open spec fn spec_is_conflict_free(self) -> bool {
        self.axis_red_only(Axis::NorthSouth) || self.axis_red_only(Axis::EastWest)
    }

    #[verifier::when_used_as_spec(spec_is_conflict_free)]
    pub fn is_conflict_free(self) -> (free: bool)
        ensures
            free == self.spec_is_conflict_free(),
    {
        (self.north.is_red_only() && self.south.is_red_only()) || (self.east.is_red_only()
            && self.west.is_red_only())
    }

    /// Every direction shows red and nothing else.
    pub open spec fn spec_is_all_red(self) -> bool {
        self.axis_red_only(Axis::NorthSouth) && self.axis_red_only(Axis::EastWest)
    }

    #[verifier::when_used_as_spec(spec_is_all_red)]
    pub fn is_all_red(self) -> (all: bool)
        ensures
            all == self.spec_is_all_red(),
    {
        self.north.is_red_only() && self.south.is_red_only() && self.east.is_red_only()
            && self.west.is_red_only()
    }

    /// The level of each output line, in line order.
    pub fn levels(self) -> (levels: [bool; 12])
        ensures
            forall|d: Direction, c: LampColor| #[trigger]
                levels@[line_index(d, c) as int] == self.lit(d, c),
    {
        [
            self.north.red,
            self.north.yellow,
            self.north.green,
            self.east.red,
            self.east.yellow,
            self.east.green,
            self.south.red,
            self.south.yellow,
            self.south.green,
            self.west.red,
            self.west.yellow,
            self.west.green,
        ]
    }
}

/// The twelve (direction, colour) pairs address the whole state: two vectors
/// that agree on every lamp are the same vector.
pub proof fn lemma_lamp_vector_extensional(a: LampVector, b: LampVector)
    requires
        forall|d: Direction, c: LampColor| #[trigger] a.lit(d, c) == b.lit(d, c),
    ensures
        a == b,
{
    assert(a.lit(Direction::North, LampColor::Red) == b.lit(Direction::North, LampColor::Red));
    assert(a.lit(Direction::North, LampColor::Yellow) == b.lit(Direction::North, LampColor::Yellow));
    assert(a.lit(Direction::North, LampColor::Green) == b.lit(Direction::North, LampColor::Green));
    assert(a.lit(Direction::East, LampColor::Red) == b.lit(Direction::East, LampColor::Red));
    assert(a.lit(Direction::East, LampColor::Yellow) == b.lit(Direction::East, LampColor::Yellow));
    assert(a.lit(Direction::East, LampColor::Green) == b.lit(Direction::East, LampColor::Green));
    assert(a.lit(Direction::South, LampColor::Red) == b.lit(Direction::South, LampColor::Red));
    assert(a.lit(Direction::South, LampColor::Yellow) == b.lit(Direction::South, LampColor::Yellow));
    assert(a.lit(Direction::South, LampColor::Green) == b.lit(Direction::South, LampColor::Green));
    assert(a.lit(Direction::West, LampColor::Red) == b.lit(Direction::West, LampColor::Red));
    assert(a.lit(Direction::West, LampColor::Yellow) == b.lit(Direction::West, LampColor::Yellow));
    assert(a.lit(Direction::West, LampColor::Green) == b.lit(Direction::West, LampColor::Green));
}

/// A vector that keeps one axis at red only shows no yellow or green on both
/// axes at once.
pub proof fn lemma_conflict_free_never_releases_both(lamps: LampVector)
    requires
        lamps.spec_is_conflict_free(),
    ensures
        !(lamps.axis_shows_non_red(Axis::NorthSouth) && lamps.axis_shows_non_red(Axis::EastWest)),
{
}

} // verus!
