use automata::bundles::automata::automata_bundle::{
    is_step_due, locate, starting_config, AutomataBundle, FrameReport, SimulationConfig,
    WorldPos, FULL_PERIOD, WORLD_UNIT,
};
use automata::bundles::automata::automata_compute_pipeline::Automata;
use automata::bundles::automata::automata_queue_compute_pipeline::{EditEntry, CAPACITY, SENTINEL};
use automata::packages::automata_package::{AutomataPackage, Texel};
use automata::packages::input_manager_package::{
    InputEvent, InputManager, KEY_B, KEY_SPACE, MOUSE_LEFT, MOUSE_RIGHT,
};
use automata::utility::errors::AutomataError;

const CENTRE: WorldPos = WorldPos { x: 0, y: 0 };
const MS: u64 = 1_000_000;

fn quiet_config(width: u32, height: u32) -> SimulationConfig {
    SimulationConfig {
        grid_size: (width, height),
        generate_random: false,
        update_rate: 60_000,
        rate_limited: true,
        running: true,
        active_kernel: Automata::GameOfLife,
        brush_kind: 1,
        brush_radius: 1,
    }
}

fn pressed(events: &[InputEvent]) -> InputManager {
    let mut input = InputManager::new();
    for event in events {
        input.process_event(event);
    }
    input
}

fn left_click() -> InputManager {
    pressed(&[InputEvent::MousePressed { button: MOUSE_LEFT }])
}

fn right_click() -> InputManager {
    pressed(&[InputEvent::MousePressed { button: MOUSE_RIGHT }])
}

fn rows_of(package: &AutomataPackage) -> Vec<String> {
    (0..package.height())
        .map(|y| {
            (0..package.width())
                .map(|x| if package.get(x, y).unwrap().is_alive() { '#' } else { '.' })
                .collect()
        })
        .collect()
}

fn live_cells(package: &AutomataPackage) -> usize {
    package.current().iter().filter(|t| t.is_alive()).count()
}

#[test]
fn starting_config_has_the_defaults() {
    let config = starting_config();
    assert_eq!(config.grid_size, (56, 56));
    assert!(config.generate_random);
    assert_eq!(config.update_rate, 60_000);
    assert!(config.rate_limited);
    assert!(config.running);
    assert_eq!(config.active_kernel, Automata::GameOfLife);
    assert_eq!(config.brush_kind, 1);
    assert_eq!(config.brush_radius, 5);
}

#[test]
fn new_bundle_starts_with_a_random_grid_and_no_step() {
    let bundle = AutomataBundle::new();
    assert_eq!(bundle.config.grid_size, (56, 56));
    assert_eq!(bundle.package().width(), 56);
    assert_eq!(bundle.package().height(), 56);
    assert_eq!(bundle.package().current().len(), 56 * 56);
    assert_ne!(bundle.package().current(), bundle.package().other());
    assert_eq!(bundle.kernel(), Automata::GameOfLife);
    assert_eq!(bundle.generation(), 0);
    assert!(!bundle.update_queued());
    assert_eq!(bundle.queue().capacity(), CAPACITY);
    assert_eq!(
        bundle.queue().slot(0),
        Some(EditEntry { x: 28, y: 28, brush_kind: 1, brush_radius: 20 })
    );
}

#[test]
fn with_config_rejects_a_zero_grid() {
    assert_eq!(
        AutomataBundle::with_config(quiet_config(0, 8)).err(),
        Some(AutomataError::InvalidDimensions)
    );
    assert_eq!(
        AutomataBundle::with_config(quiet_config(8, 0)).err(),
        Some(AutomataError::InvalidDimensions)
    );
}

#[test]
fn with_config_binds_the_named_kernel() {
    let mut config = quiet_config(4, 4);
    config.active_kernel = Automata::SmoothLife;
    let bundle = AutomataBundle::with_config(config).unwrap();
    assert_eq!(bundle.kernel(), Automata::SmoothLife);
    assert_eq!(bundle.package().current(), &vec![Texel(0); 16]);
    assert_eq!(bundle.package().other(), &vec![Texel(0); 16]);
}

#[test]
fn pix_pos_maps_the_world_square_onto_the_grid() {
    assert_eq!(WORLD_UNIT, 1 << 24);
    assert_eq!(locate(8, 8, CENTRE), (3, 3));
    assert_eq!(locate(8, 8, WorldPos { x: WORLD_UNIT, y: WORLD_UNIT }), (7, 7));
    assert_eq!(locate(8, 8, WorldPos { x: -WORLD_UNIT, y: -WORLD_UNIT }), (-1, -1));
    assert_eq!(locate(8, 8, WorldPos { x: -WORLD_UNIT + 1, y: 1 }), (0, 4));
    assert_eq!(locate(8, 8, WorldPos { x: WORLD_UNIT / 2, y: WORLD_UNIT / 2 + 1 }), (5, 6));
    assert_eq!(locate(8, 8, WorldPos { x: -WORLD_UNIT / 2, y: -WORLD_UNIT / 2 - 1 }), (1, 1));
    assert_eq!(locate(56, 10, WorldPos { x: WORLD_UNIT / 4, y: -WORLD_UNIT / 4 }), (34, 3));
    assert_eq!(locate(1, 1, CENTRE), (0, 0));
    assert_eq!(locate(1, 1, WorldPos { x: WORLD_UNIT, y: -WORLD_UNIT }), (0, -1));
}

#[test]
fn bundle_maps_positions_onto_its_own_grid() {
    let bundle = AutomataBundle::with_config(quiet_config(8, 4)).unwrap();
    assert_eq!(bundle.get_pix_pos(CENTRE), (3, 1));
    assert_eq!(bundle.get_pix_pos(WorldPos { x: WORLD_UNIT, y: WORLD_UNIT }), (7, 3));
    assert_eq!(bundle.get_pix_pos(WorldPos { x: WORLD_UNIT, y: WORLD_UNIT + 1 }), (SENTINEL, SENTINEL));
    let mut bundle = bundle;
    bundle.config.grid_size = (100, 100);
    assert_eq!(bundle.get_pix_pos(CENTRE), (3, 1));
    bundle.reset_package().unwrap();
    assert_eq!(bundle.get_pix_pos(CENTRE), (49, 49));
}

#[test]
fn pix_pos_off_the_grid_is_the_sentinel_on_both_axes() {
    let off = [
        WorldPos { x: WORLD_UNIT + 1, y: 0 },
        WorldPos { x: -WORLD_UNIT - 1, y: 0 },
        WorldPos { x: 0, y: WORLD_UNIT + 1 },
        WorldPos { x: 0, y: -WORLD_UNIT - 1 },
        WorldPos { x: i64::MAX, y: i64::MIN },
        WorldPos { x: i64::MIN, y: 0 },
        WorldPos { x: 3 * WORLD_UNIT, y: 3 * WORLD_UNIT },
    ];
    for pos in off {
        assert_eq!(locate(8, 8, pos), (SENTINEL, SENTINEL));
        assert_eq!(locate(u32::MAX, 1, pos), (i32::MAX, i32::MAX));
    }
}

#[test]
fn pix_pos_stops_at_the_greatest_index() {
    let corner = WorldPos { x: WORLD_UNIT, y: WORLD_UNIT };
    assert_eq!(locate(u32::MAX, 0x8000_0000, corner), (i32::MAX, i32::MAX - 0));
    assert_eq!(locate(0x7fff_ffff, 0x8000_0001, corner), (i32::MAX - 1, i32::MAX));
    assert_eq!(locate(0, 0, corner), (-1, -1));
}

#[test]
fn no_step_until_the_period_less_the_frame_time_has_passed() {
    let config = quiet_config(8, 8);
    let delta = 5 * MS;
    let mut elapsed = 0;
    let mut decisions = Vec::new();
    for _ in 0..4 {
        let due = is_step_due(&config, elapsed, delta);
        decisions.push(due);
        elapsed = if due { 0 } else { elapsed + delta };
    }
    // A sixtieth of a second is 16.67 ms; less the frame's 5 ms that is
    // 11.67 ms, first exceeded at 15 ms.
    assert_eq!(decisions, vec![false, false, false, true]);
    assert!(!is_step_due(&config, 11_666_666, delta));
    assert!(is_step_due(&config, 11_666_667, delta));
    assert!(!is_step_due(&config, 16_666_666, 0));
    assert!(is_step_due(&config, 16_666_667, 0));
    assert!(is_step_due(&config, 0, 16_666_667));
}

#[test]
fn step_needs_more_than_the_full_period() {
    assert_eq!(FULL_PERIOD, 1_000_000_000_000);
    let mut config = quiet_config(8, 8);
    config.update_rate = 50_000;
    assert!(!is_step_due(&config, 15 * MS, 5 * MS));
    assert!(is_step_due(&config, 15 * MS + 1, 5 * MS));
    config.update_rate = 1;
    assert!(!is_step_due(&config, 1_000_000_000_000, 0));
    assert!(is_step_due(&config, 1_000_000_000_000, 1));
    config.update_rate = u32::MAX;
    assert!(!is_step_due(&config, 232, 0));
    assert!(is_step_due(&config, 233, 0));
    assert!(is_step_due(&config, u64::MAX, u64::MAX));
}

#[test]
fn rate_zero_never_steps() {
    let mut config = quiet_config(8, 8);
    config.update_rate = 0;
    for elapsed in [0, 1, 17 * MS, 1_000_000 * MS, u64::MAX] {
        for delta in [0, 16 * MS, u64::MAX] {
            assert!(!is_step_due(&config, elapsed, delta));
        }
    }
}

#[test]
fn without_the_limit_every_running_frame_steps() {
    let mut config = quiet_config(8, 8);
    config.rate_limited = false;
    config.update_rate = 0;
    assert!(is_step_due(&config, 0, 0));
    assert!(is_step_due(&config, u64::MAX, u64::MAX));
    config.running = false;
    assert!(!is_step_due(&config, 0, 0));
    assert!(!is_step_due(&config, u64::MAX, u64::MAX));
}

#[test]
fn paused_simulation_is_never_due() {
    let mut config = quiet_config(8, 8);
    config.running = false;
    assert!(!is_step_due(&config, 1_000 * MS, 16 * MS));
}

#[test]
fn left_click_queues_a_painting_edit() {
    let mut config = quiet_config(8, 8);
    config.brush_kind = 3;
    config.brush_radius = 7;
    let mut bundle = AutomataBundle::with_config(config).unwrap();
    assert_eq!(bundle.update(&left_click(), CENTRE), Ok(()));
    assert!(bundle.update_queued());
    assert_eq!(
        bundle.queue().slot(0),
        Some(EditEntry { x: 3, y: 3, brush_kind: 3, brush_radius: 7 })
    );
    for i in 1..CAPACITY {
        assert_eq!(
            bundle.queue().slot(i),
            Some(EditEntry { x: 0, y: 0, brush_kind: 0, brush_radius: 0 })
        );
    }
}

#[test]
fn right_click_queues_an_erasing_edit() {
    let mut config = quiet_config(8, 8);
    config.brush_kind = 3;
    config.brush_radius = 7;
    let mut bundle = AutomataBundle::with_config(config).unwrap();
    let pos = WorldPos { x: WORLD_UNIT, y: -WORLD_UNIT / 2 };
    assert_eq!(bundle.update(&right_click(), pos), Ok(()));
    assert!(bundle.update_queued());
    assert_eq!(
        bundle.queue().slot(0),
        Some(EditEntry { x: 7, y: 1, brush_kind: -3, brush_radius: 7 })
    );
}

#[test]
fn left_click_wins_over_right_click() {
    let mut bundle = AutomataBundle::with_config(quiet_config(8, 8)).unwrap();
    let both = pressed(&[
        InputEvent::MousePressed { button: MOUSE_RIGHT },
        InputEvent::MousePressed { button: MOUSE_LEFT },
    ]);
    bundle.update(&both, CENTRE).unwrap();
    assert_eq!(
        bundle.queue().slot(0),
        Some(EditEntry { x: 3, y: 3, brush_kind: 1, brush_radius: 1 })
    );
}

#[test]
fn erasing_with_the_least_kind_does_not_overflow() {
    let mut config = quiet_config(8, 8);
    config.brush_kind = i32::MIN;
    let mut bundle = AutomataBundle::with_config(config).unwrap();
    bundle.update(&right_click(), CENTRE).unwrap();
    assert_eq!(
        bundle.queue().slot(0),
        Some(EditEntry { x: 3, y: 3, brush_kind: i32::MAX, brush_radius: 1 })
    );
    bundle.update(&left_click(), CENTRE).unwrap();
    assert_eq!(
        bundle.queue().slot(0),
        Some(EditEntry { x: 3, y: 3, brush_kind: i32::MIN, brush_radius: 1 })
    );
}

#[test]
fn frame_without_a_click_queues_nothing() {
    let mut bundle = AutomataBundle::with_config(quiet_config(8, 8)).unwrap();
    bundle.update(&left_click(), CENTRE).unwrap();
    assert!(bundle.update_queued());
    let held = pressed(&[InputEvent::MousePressed { button: MOUSE_LEFT }]);
    let mut held = held;
    held.reset();
    bundle.update(&held, CENTRE).unwrap();
    assert!(!bundle.update_queued());
    // The queue keeps what it held; it is just not flushed.
    assert_eq!(
        bundle.queue().slot(0),
        Some(EditEntry { x: 3, y: 3, brush_kind: 1, brush_radius: 1 })
    );
    let report = bundle.automata_pass_at(0, 0);
    assert_eq!(report, FrameReport { flushed: false, stepped: false });
    assert_eq!(live_cells(bundle.package()), 0);
}

#[test]
fn key_b_flips_running_while_it_is_held() {
    let mut bundle = AutomataBundle::with_config(quiet_config(8, 8)).unwrap();
    let mut input = pressed(&[InputEvent::KeyPressed { key: KEY_B }]);
    bundle.update(&input, CENTRE).unwrap();
    assert!(!bundle.config.running);
    input.reset();
    bundle.update(&input, CENTRE).unwrap();
    assert!(bundle.config.running);
    input.process_event(&InputEvent::KeyReleased { key: KEY_B });
    bundle.update(&input, CENTRE).unwrap();
    assert!(bundle.config.running);
}

#[test]
fn key_space_resets_the_grid() {
    let mut bundle = AutomataBundle::with_config(quiet_config(8, 8)).unwrap();
    bundle.update(&left_click(), CENTRE).unwrap();
    bundle.automata_pass_at(0, 0);
    assert_eq!(live_cells(bundle.package()), 9);
    bundle.config.grid_size = (5, 4);
    let space = pressed(&[InputEvent::KeyPressed { key: KEY_SPACE }]);
    assert_eq!(bundle.update(&space, CENTRE), Ok(()));
    assert_eq!(bundle.package().width(), 5);
    assert_eq!(bundle.package().height(), 4);
    assert_eq!(bundle.package().current(), &vec![Texel(0); 20]);
    assert_eq!(bundle.package().other(), &vec![Texel(0); 20]);
    assert_eq!(bundle.generation(), 0);
}

#[test]
fn reset_with_a_zero_grid_fails_and_keeps_the_grid() {
    let mut bundle = AutomataBundle::with_config(quiet_config(8, 8)).unwrap();
    bundle.update(&left_click(), CENTRE).unwrap();
    bundle.automata_pass_at(0, 0);
    let before = bundle.package().current().clone();
    bundle.config.grid_size = (0, 4);
    assert_eq!(bundle.reset_package(), Err(AutomataError::InvalidDimensions));
    let space = pressed(&[
        InputEvent::KeyPressed { key: KEY_SPACE },
        InputEvent::KeyPressed { key: KEY_B },
    ]);
    assert_eq!(bundle.update(&space, CENTRE), Err(AutomataError::InvalidDimensions));
    assert_eq!(bundle.package().width(), 8);
    assert_eq!(bundle.package().current(), &before);
    assert!(!bundle.config.running);
    assert!(!bundle.update_queued());
}

#[test]
fn reset_package_uses_the_settings() {
    let mut bundle = AutomataBundle::with_config(quiet_config(8, 8)).unwrap();
    bundle.config.grid_size = (16, 32);
    bundle.config.generate_random = true;
    assert_eq!(bundle.reset_package(), Ok(()));
    assert_eq!(bundle.package().width(), 16);
    assert_eq!(bundle.package().height(), 32);
    assert_ne!(bundle.package().current(), bundle.package().other());
    assert_ne!(bundle.package().current(), &vec![Texel(0); 512]);
}

#[test]
fn reset_compute_binds_the_kernel_and_keeps_the_grid() {
    let mut bundle = AutomataBundle::with_config(quiet_config(8, 8)).unwrap();
    bundle.update(&left_click(), CENTRE).unwrap();
    bundle.automata_pass_at(0, 0);
    let before = bundle.package().current().clone();
    bundle.config.active_kernel = Automata::SmoothLife;
    assert_eq!(bundle.kernel(), Automata::GameOfLife);
    bundle.reset_compute();
    assert_eq!(bundle.kernel(), Automata::SmoothLife);
    assert_eq!(bundle.package().current(), &before);
    assert_eq!(bundle.generation(), 0);
}

#[test]
fn edit_flush_and_one_step_of_life() {
    let mut config = quiet_config(8, 8);
    config.rate_limited = false;
    let mut bundle = AutomataBundle::with_config(config).unwrap();
    bundle.update(&left_click(), CENTRE).unwrap();
    let report = bundle.automata_pass_at(0, 0);
    assert_eq!(report, FrameReport { flushed: true, stepped: true });
    assert_eq!(bundle.generation(), 1);
    assert_eq!(
        rows_of(bundle.package()),
        vec![
            "........", "...#....", "..#.#...", ".#...#..", "..#.#...", "...#....", "........",
            "........",
        ]
    );
}

#[test]
fn paused_frames_paint_but_do_not_step() {
    let mut bundle = AutomataBundle::with_config(quiet_config(8, 8)).unwrap();
    bundle.config.running = false;
    let before = bundle.package().current().clone();
    for frame in 0..10u64 {
        let pos = WorldPos { x: -WORLD_UNIT + 1 + (frame as i64) * (WORLD_UNIT / 5), y: 0 };
        bundle.config.brush_radius = 0;
        bundle.update(&left_click(), pos).unwrap();
        let report = bundle.automata_pass_at(frame * 100 * MS, 100 * MS);
        assert_eq!(report, FrameReport { flushed: true, stepped: false });
    }
    assert_eq!(bundle.generation(), 0);
    assert_ne!(bundle.package().current(), &before);
    assert_eq!(
        rows_of(bundle.package()),
        vec![
            "........", "........", "........", "########", "........", "........", "........",
            "........",
        ]
    );
}

#[test]
fn edits_are_seen_while_paused_and_kept_on_resume() {
    let mut config = quiet_config(4, 4);
    config.rate_limited = false;
    config.running = false;
    config.brush_radius = 0;
    let mut bundle = AutomataBundle::with_config(config).unwrap();
    bundle.update(&left_click(), CENTRE).unwrap();
    bundle.automata_pass_at(0, 0);
    assert_eq!(rows_of(bundle.package()), vec!["....", ".#..", "....", "...."]);
    bundle.config.running = true;
    bundle.update(&InputManager::new(), CENTRE).unwrap();
    let report = bundle.automata_pass_at(0, 0);
    assert_eq!(report, FrameReport { flushed: false, stepped: true });
    assert_eq!(rows_of(bundle.package()), vec!["....", "....", "....", "...."]);
    assert_eq!(bundle.generation(), 1);
}

#[test]
fn click_off_the_grid_changes_no_cell() {
    for kind in [1, 2, 3, 4, -1, 9] {
        for radius in [0, 1, 5, 600] {
            let mut config = quiet_config(8, 8);
            config.running = false;
            config.brush_kind = kind;
            config.brush_radius = radius;
            let mut bundle = AutomataBundle::with_config(config).unwrap();
            bundle.update(&left_click(), CENTRE).unwrap();
            bundle.automata_pass_at(0, 0);
            let current = bundle.package().current().clone();
            let other = bundle.package().other().clone();
            for pos in [
                WorldPos { x: WORLD_UNIT + 1, y: 0 },
                WorldPos { x: 0, y: -WORLD_UNIT - 1 },
                WorldPos { x: -2 * WORLD_UNIT, y: 2 * WORLD_UNIT },
            ] {
                bundle.update(&left_click(), pos).unwrap();
                assert_eq!(bundle.queue().slot(0).unwrap().x, SENTINEL);
                assert_eq!(bundle.queue().slot(0).unwrap().y, SENTINEL);
                let report = bundle.automata_pass_at(0, 0);
                assert_eq!(report, FrameReport { flushed: false, stepped: false });
                bundle.update(&right_click(), pos).unwrap();
                let report = bundle.automata_pass_at(0, 0);
                assert_eq!(report, FrameReport { flushed: false, stepped: false });
                assert_eq!(bundle.package().current(), &current);
                assert_eq!(bundle.package().other(), &other);
            }
        }
    }
}

#[test]
fn rate_limited_frames_step_when_due() {
    let mut bundle = AutomataBundle::with_config(quiet_config(8, 8)).unwrap();
    let delta = 5 * MS;
    let mut elapsed = 0;
    let mut steps = Vec::new();
    for _ in 0..9 {
        bundle.update(&InputManager::new(), CENTRE).unwrap();
        let report = bundle.automata_pass_at(elapsed, delta);
        steps.push(report.stepped);
        elapsed = if report.stepped { 0 } else { elapsed + delta };
    }
    assert_eq!(steps, vec![false, false, false, true, false, false, false, true, false]);
    assert_eq!(bundle.generation(), 2);
}

#[test]
fn step_swaps_the_buffers_once() {
    let mut config = quiet_config(5, 5);
    config.rate_limited = false;
    config.brush_kind = 4;
    let mut bundle = AutomataBundle::with_config(config).unwrap();
    bundle.config.running = false;
    bundle.update(&left_click(), CENTRE).unwrap();
    bundle.automata_pass_at(0, 0);
    let cross = vec![".....", "..#..", ".###.", "..#..", "....."];
    assert_eq!(rows_of(bundle.package()), cross);
    bundle.config.running = true;
    bundle.update(&InputManager::new(), CENTRE).unwrap();
    bundle.automata_pass_at(0, 0);
    assert_eq!(rows_of(bundle.package()), vec![".....", ".###.", ".#.#.", ".###.", "....."]);
    // What was current before the step is now the other buffer.
    let other: Vec<String> = (0..5)
        .map(|y| {
            (0..5)
                .map(|x| if bundle.package().other()[y * 5 + x].is_alive() { '#' } else { '.' })
                .collect()
        })
        .collect();
    assert_eq!(other, cross);
}

#[test]
fn clock_driven_frames_step_without_the_limit() {
    let mut config = quiet_config(8, 8);
    config.rate_limited = false;
    let mut bundle = AutomataBundle::with_config(config).unwrap();
    for n in 1..=5u64 {
        let report = bundle.automata_pass(0);
        assert_eq!(report, FrameReport { flushed: false, stepped: true });
        assert_eq!(bundle.generation(), n);
    }
    bundle.config.running = false;
    assert_eq!(bundle.automata_pass(0), FrameReport { flushed: false, stepped: false });
    assert_eq!(bundle.generation(), 5);
}

#[test]
fn clock_driven_frames_hold_the_rate() {
    let mut config = quiet_config(8, 8);
    // One step in a thousand seconds.
    config.update_rate = 1;
    let mut bundle = AutomataBundle::with_config(config).unwrap();
    assert_eq!(bundle.automata_pass(0), FrameReport { flushed: false, stepped: false });
    assert_eq!(bundle.automata_pass(16 * MS), FrameReport { flushed: false, stepped: false });
    assert_eq!(bundle.generation(), 0);
    // A frame that itself took longer than the period steps whatever the clock says.
    let report = bundle.automata_pass(1_000_000 * MS + 1);
    assert_eq!(report, FrameReport { flushed: false, stepped: true });
    assert_eq!(bundle.generation(), 1);
    bundle.config.update_rate = 0;
    assert_eq!(bundle.automata_pass(u64::MAX), FrameReport { flushed: false, stepped: false });
}
