use traffic_light::lamps::{
    lamp_of_line, line_of, Aspect, Axis, Direction, LampColor, LampVector, Signal, LINE_COUNT,
};
use traffic_light::phase::{
    all_red, apply_phase, phase_to_lamp_vector, set_ew_green, set_ew_red_yellow, set_ew_yellow,
    set_ns_green, set_ns_red_yellow, set_ns_yellow, Phase, CLEARANCE_SECS, GREEN_SECS,
    PREPARE_SECS, YELLOW_SECS,
};
use traffic_light::sequencer::{
    phase_at, position_at, Action, Event, LineWriteFault, Sequencer, CYCLE_LEN, CYCLE_SECS,
};

const PHASES: [Phase; 7] = [
    Phase::NsRedYellow,
    Phase::NsGreen,
    Phase::NsYellow,
    Phase::AllRed,
    Phase::EwRedYellow,
    Phase::EwGreen,
    Phase::EwYellow,
];

const DIRECTIONS: [Direction; 4] =
    [Direction::North, Direction::East, Direction::South, Direction::West];

const COLORS: [LampColor; 3] = [LampColor::Red, LampColor::Yellow, LampColor::Green];

fn all_lit() -> LampVector {
    let on = Signal { red: true, yellow: true, green: true };
    LampVector { north: on, east: on, south: on, west: on }
}

// Line order: north, east, south, west; red, yellow, green within each.
fn from_levels(levels: [u8; 12]) -> [bool; 12] {
    levels.map(|level| level == 1)
}

#[test]
fn every_phase_writes_all_twelve_lamps() {
    for phase in PHASES {
        let mut from_dark = LampVector::dark();
        let mut from_lit = all_lit();
        apply_phase(phase, &mut from_dark);
        apply_phase(phase, &mut from_lit);
        assert_eq!(from_dark, from_lit);
        assert_eq!(from_dark, phase_to_lamp_vector(phase));
        assert_eq!(from_dark.levels().len(), 12);
    }
}

#[test]
fn setters_give_the_exact_levels() {
    let cases: [(fn(&mut LampVector), [u8; 12]); 7] = [
        (set_ns_red_yellow, [1, 1, 0, 1, 0, 0, 1, 1, 0, 1, 0, 0]),
        (set_ns_green, [0, 0, 1, 1, 0, 0, 0, 0, 1, 1, 0, 0]),
        (set_ns_yellow, [0, 1, 0, 1, 0, 0, 0, 1, 0, 1, 0, 0]),
        (all_red, [1, 0, 0, 1, 0, 0, 1, 0, 0, 1, 0, 0]),
        (set_ew_red_yellow, [1, 0, 0, 1, 1, 0, 1, 0, 0, 1, 1, 0]),
        (set_ew_green, [1, 0, 0, 0, 0, 1, 1, 0, 0, 0, 0, 1]),
        (set_ew_yellow, [1, 0, 0, 0, 1, 0, 1, 0, 0, 0, 1, 0]),
    ];
    for (setter, levels) in cases {
        let mut lamps = LampVector::dark();
        setter(&mut lamps);
        assert_eq!(lamps.levels(), from_levels(levels));
        let mut lamps = all_lit();
        setter(&mut lamps);
        assert_eq!(lamps.levels(), from_levels(levels));
    }
}

#[test]
fn every_phase_keeps_one_axis_red() {
    for phase in PHASES {
        let lamps = phase_to_lamp_vector(phase);
        assert!(lamps.is_conflict_free());
        let north_south_released = lamps.north.yellow
            || lamps.north.green
            || lamps.south.yellow
            || lamps.south.green;
        let east_west_released =
            lamps.east.yellow || lamps.east.green || lamps.west.yellow || lamps.west.green;
        assert!(!(north_south_released && east_west_released));
        match phase.active_axis() {
            Some(Axis::NorthSouth) => {
                assert!(lamps.east.is_red_only() && lamps.west.is_red_only())
            }
            Some(Axis::EastWest) => {
                assert!(lamps.north.is_red_only() && lamps.south.is_red_only())
            }
            None => assert!(lamps.is_all_red()),
        }
    }
    assert!(phase_to_lamp_vector(Phase::AllRed).is_all_red());
    assert!(!phase_to_lamp_vector(Phase::NsGreen).is_all_red());
}

#[test]
fn conflicting_greens_are_recognised() {
    let green = Signal { red: false, yellow: false, green: true };
    let red = Signal { red: true, yellow: false, green: false };
    let both = LampVector { north: green, east: green, south: green, west: green };
    assert!(!both.is_conflict_free());
    let one_stray = LampVector { north: green, east: red, south: green, west: Aspect::Yellow.signal() };
    assert!(!one_stray.is_conflict_free());
    assert!(!LampVector::dark().is_conflict_free());
    let fine = LampVector { north: green, east: red, south: green, west: red };
    assert!(fine.is_conflict_free());
}

#[test]
fn every_direction_shows_one_lamp_or_red_with_yellow() {
    for phase in PHASES {
        let lamps = phase_to_lamp_vector(phase);
        for direction in DIRECTIONS {
            let signal = lamps.signal(direction);
            let preparing = matches!(phase, Phase::NsRedYellow | Phase::EwRedYellow)
                && phase.active_axis() == Some(direction.axis());
            if preparing {
                assert!(signal.red && signal.yellow && !signal.green);
                assert_eq!(signal.count_lit(), 2);
            } else {
                assert_eq!(signal.count_lit(), 1);
            }
            assert_eq!(signal.aspect(), Some(phase.aspect_for(direction)));
        }
    }
}

#[test]
fn cycle_returns_to_all_red_at_the_first_position() {
    let (mut sequencer, boot) = Sequencer::new();
    assert_eq!(sequencer.next_position(), Some(0));
    let mut last = boot;
    for step in 0..CYCLE_LEN {
        assert_eq!(sequencer.next_position(), Some(step));
        last = sequencer.step(Event::Held);
    }
    assert_eq!(sequencer.next_position(), Some(0));
    assert_eq!(
        last,
        Action::Show { lamps: phase_to_lamp_vector(Phase::AllRed), hold_secs: 1 }
    );
    match (boot, last) {
        (Action::Show { lamps: at_boot, .. }, Action::Show { lamps: at_end, .. }) => {
            assert_eq!(at_boot, at_end);
            assert!(at_end.is_all_red());
        }
        _ => panic!("the sequencer halted"),
    }
}

#[test]
fn plan_repeats_every_eight_steps() {
    let (mut sequencer, _boot) = Sequencer::new();
    let mut first_cycle = Vec::new();
    for step in 0..8u64 {
        let action = sequencer.step(Event::Held);
        let phase = phase_at(step);
        assert_eq!(
            action,
            Action::Show { lamps: phase_to_lamp_vector(phase), hold_secs: phase.duration_secs() }
        );
        first_cycle.push(action);
    }
    for step in 0..80 {
        assert_eq!(sequencer.step(Event::Held), first_cycle[step % 8]);
    }
}

#[test]
fn cycle_takes_thirty_seconds() {
    let (mut sequencer, boot) = Sequencer::new();
    assert_eq!(boot, Action::Show { lamps: phase_to_lamp_vector(Phase::AllRed), hold_secs: 0 });
    let mut total = 0;
    for _ in 0..CYCLE_LEN {
        match sequencer.step(Event::Held) {
            Action::Show { hold_secs, .. } => total += hold_secs,
            Action::Halt(_) => panic!("the sequencer halted"),
        }
    }
    assert_eq!(total, 30);
    assert_eq!(total, CYCLE_SECS);
    assert_eq!(total, 1 + 10 + 3 + 1 + 1 + 10 + 3 + 1);
    let by_plan: u64 = (0..8).map(|index| phase_at(index).duration_secs()).sum();
    assert_eq!(by_plan, 30);
}

#[test]
fn durations_are_exact() {
    assert_eq!(Phase::NsRedYellow.duration_secs(), 1);
    assert_eq!(Phase::NsGreen.duration_secs(), 10);
    assert_eq!(Phase::NsYellow.duration_secs(), 3);
    assert_eq!(Phase::AllRed.duration_secs(), 1);
    assert_eq!(Phase::EwRedYellow.duration_secs(), 1);
    assert_eq!(Phase::EwGreen.duration_secs(), 10);
    assert_eq!(Phase::EwYellow.duration_secs(), 3);
    assert_eq!((PREPARE_SECS, GREEN_SECS, YELLOW_SECS, CLEARANCE_SECS), (1, 10, 3, 1));
}

#[test]
fn lines_follow_the_reference_mapping() {
    let expected = [
        (Direction::North, [0, 1, 2]),
        (Direction::East, [3, 4, 5]),
        (Direction::South, [6, 7, 8]),
        (Direction::West, [9, 10, 11]),
    ];
    for (direction, lines) in expected {
        for (color, line) in COLORS.into_iter().zip(lines) {
            assert_eq!(line_of(direction, color), line);
            assert_eq!(lamp_of_line(line), Some((direction, color)));
        }
    }
    assert_eq!(LINE_COUNT, 12);
    assert_eq!(lamp_of_line(12), None);
    assert_eq!(lamp_of_line(usize::MAX), None);
}

#[test]
fn levels_are_in_line_order() {
    for phase in PHASES {
        let lamps = phase_to_lamp_vector(phase);
        let levels = lamps.levels();
        for direction in DIRECTIONS {
            for color in COLORS {
                assert_eq!(levels[line_of(direction, color)], lamps.is_lit(direction, color));
            }
        }
    }
}

#[test]
fn set_writes_one_lamp_and_leaves_eleven() {
    for direction in DIRECTIONS {
        for color in COLORS {
            for level in [false, true] {
                for before in [LampVector::dark(), all_lit(), phase_to_lamp_vector(Phase::EwGreen)] {
                    let mut lamps = before;
                    lamps.set(direction, color, level);
                    assert_eq!(lamps.is_lit(direction, color), level);
                    let mut levels = before.levels();
                    levels[line_of(direction, color)] = level;
                    assert_eq!(lamps.levels(), levels);
                    lamps.set(direction, color, level);
                    assert_eq!(lamps.levels(), levels);
                }
            }
        }
    }
}

#[test]
fn aspects_and_their_lamps() {
    let cases = [
        (Aspect::Red, (true, false, false)),
        (Aspect::RedYellow, (true, true, false)),
        (Aspect::Green, (false, false, true)),
        (Aspect::Yellow, (false, true, false)),
    ];
    for (aspect, (red, yellow, green)) in cases {
        let signal = Signal { red, yellow, green };
        assert_eq!(aspect.signal(), signal);
        assert_eq!(signal.aspect(), Some(aspect));
        assert_eq!(signal.lamp(LampColor::Red), red);
        assert_eq!(signal.lamp(LampColor::Yellow), yellow);
        assert_eq!(signal.lamp(LampColor::Green), green);
    }
    for (red, yellow, green) in
        [(false, false, false), (true, false, true), (false, true, true), (true, true, true)]
    {
        assert_eq!(Signal { red, yellow, green }.aspect(), None);
    }
    assert_eq!(Signal { red: true, yellow: true, green: true }.count_lit(), 3);
    assert_eq!(Signal { red: false, yellow: false, green: false }.count_lit(), 0);
}

#[test]
fn signal_heads_follow_the_convention() {
    assert_eq!(Aspect::Red.successor(), Aspect::RedYellow);
    assert_eq!(Aspect::RedYellow.successor(), Aspect::Green);
    assert_eq!(Aspect::Green.successor(), Aspect::Yellow);
    assert_eq!(Aspect::Yellow.successor(), Aspect::Red);
    for index in 0..16u64 {
        for direction in DIRECTIONS {
            let now = phase_at(index).aspect_for(direction);
            let then = phase_at(index + 1).aspect_for(direction);
            assert!(then == now || then == now.successor());
        }
    }
}

#[test]
fn axes_and_directions() {
    assert_eq!(Direction::North.axis(), Axis::NorthSouth);
    assert_eq!(Direction::South.axis(), Axis::NorthSouth);
    assert_eq!(Direction::East.axis(), Axis::EastWest);
    assert_eq!(Direction::West.axis(), Axis::EastWest);
    assert_eq!(Axis::NorthSouth.other(), Axis::EastWest);
    assert_eq!(Axis::EastWest.other(), Axis::NorthSouth);
    assert_eq!(Phase::NsYellow.active_axis(), Some(Axis::NorthSouth));
    assert_eq!(Phase::EwRedYellow.active_axis(), Some(Axis::EastWest));
    assert_eq!(Phase::AllRed.active_axis(), None);
}

#[test]
fn write_fault_halts_for_good() {
    let (mut sequencer, _boot) = Sequencer::new();
    sequencer.step(Event::Held);
    sequencer.step(Event::Held);
    assert_eq!(sequencer.fault(), None);
    let fault = LineWriteFault { line: 7 };
    assert_eq!(sequencer.step(Event::WriteFailed(fault)), Action::Halt(fault));
    assert_eq!(sequencer.fault(), Some(fault));
    assert_eq!(sequencer.next_position(), None);
    assert_eq!(sequencer.step(Event::Held), Action::Halt(fault));
    let later = LineWriteFault { line: 2 };
    assert_eq!(sequencer.step(Event::WriteFailed(later)), Action::Halt(fault));
    assert_eq!(sequencer.fault(), Some(fault));
}

#[test]
fn write_fault_at_power_up_halts() {
    let (mut sequencer, _boot) = Sequencer::new();
    let fault = LineWriteFault { line: 0 };
    assert_eq!(sequencer.step(Event::WriteFailed(fault)), Action::Halt(fault));
    assert_eq!(sequencer.step(Event::Held), Action::Halt(fault));
}

#[test]
fn half_written_batches_stay_safe() {
    let mut stops = vec![phase_to_lamp_vector(Phase::AllRed)];
    stops.extend((0..9u64).map(|index| phase_to_lamp_vector(phase_at(index))));
    for pair in stops.windows(2) {
        let (from, to) = (pair[0].levels(), pair[1].levels());
        for choice in 0..(1u32 << 12) {
            let mut mixed = LampVector::dark();
            for line in 0..12 {
                let level = if choice & (1 << line) == 0 { from[line] } else { to[line] };
                let (direction, color) = lamp_of_line(line).unwrap();
                mixed.set(direction, color, level);
            }
            assert!(mixed.is_conflict_free());
        }
    }
}

#[test]
fn first_batch_never_lights_yellow_or_green() {
    let from = LampVector::dark().levels();
    let to = phase_to_lamp_vector(Phase::AllRed).levels();
    for choice in 0..(1u32 << 12) {
        let mut mixed = LampVector::dark();
        for line in 0..12 {
            let level = if choice & (1 << line) == 0 { from[line] } else { to[line] };
            let (direction, color) = lamp_of_line(line).unwrap();
            mixed.set(direction, color, level);
        }
        for direction in DIRECTIONS {
            assert!(!mixed.is_lit(direction, LampColor::Yellow));
            assert!(!mixed.is_lit(direction, LampColor::Green));
        }
    }
}

#[test]
fn actions_come_due_at_the_plans_times() {
    let (mut sequencer, _boot) = Sequencer::new();
    let mut elapsed = 0;
    for step in 0..40usize {
        assert_eq!(position_at(elapsed), step % 8);
        assert_eq!(sequencer.next_position(), Some(step % 8));
        match sequencer.step(Event::Held) {
            Action::Show { hold_secs, .. } => elapsed += hold_secs,
            Action::Halt(_) => panic!("the sequencer halted"),
        }
    }
    assert_eq!(elapsed, 150);
}
