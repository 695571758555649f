//! The simulation as a whole: its settings, the grid, the edit queue, the
//! bound kernel, and the schedule that decides once per frame what runs.
//!
//! A frame runs in this order. If edits were queued in this frame, they are
//! painted and the buffers are exchanged, whether or not the simulation is
//! running. Then, if a step is due, the kernel takes the grid one generation
//! on and the buffers are exchanged again. What is then current is what the
//! frame shows.
//!
//! Times are whole nanoseconds, rates are thousandths of a hertz, and a
//! position of the world is a pair of fixed-point numbers with `WORLD_UNIT`
//! steps to one unit of length. The grid fills the world's square from -1
//! to 1 on both axes.

use crate::bundles::automata::automata_compute_pipeline::{
    next_generation,
    Automata,
    AutomataComputePipeline,
};
use crate::bundles::automata::automata_queue_compute_pipeline::{
    batch_image,
    flushed,
    has_edits,
    initial_image,
    EditEntry,
    QueueComputePipeline,
    CAPACITY,
    SENTINEL,
};
use crate::packages::automata_package::{empty_cells, AutomataPackage, Grids};
use crate::packages::input_manager_package::{
    InputManager,
    Inputs,
    KEY_B,
    KEY_SPACE,
    MOUSE_LEFT,
    MOUSE_RIGHT,
};
use crate::packages::time_package::elapsed_nanos;
use crate::utility::errors::AutomataError;
use std::time::Instant;
use vstd::prelude::*;

verus! {

/// The fixed-point steps in one unit of length of the world.
pub const WORLD_UNIT: i64 = 0x100_0000;

/// The product of a time in nanoseconds and a rate in thousandths of a
/// hertz that makes one full period.
pub const FULL_PERIOD: u128 = 1_000_000_000_000;

/// A position of the world, in fixed-point steps.
#[derive(Clone, Copy, Debug)]
pub struct WorldPos {
    pub x: i64,
    pub y: i64,
}

/// The settings of the simulation. The user interface changes them; the
/// core reads them afresh in every frame.
#[derive(Clone, Copy, Debug)]
pub struct SimulationConfig {
    /// The columns and rows that the grid gets when it is next reset.
    pub grid_size: (u32, u32),
    /// Whether a reset fills the grid with random weights.
    pub generate_random: bool,
    /// The steps per second that the schedule aims at, in thousandths of a
    /// hertz. 0 means that no step is ever due.
    pub update_rate: u32,
    /// Whether the schedule holds the steps to `update_rate`. Without it a
    /// step is due in every frame.
    pub rate_limited: bool,
    /// Whether the simulation steps at all. Edits are painted either way.
    pub running: bool,
    /// The rule that is bound when the kernel is next reset.
    pub active_kernel: Automata,
    /// The kind of the brush, as in `EditEntry`. The left button paints
    /// with it; the right button paints with its negative.
    pub brush_kind: i32,
    /// The radius of the brush.
    pub brush_radius: i32,
}

/// What a frame did.
#[derive(Clone, Copy, Debug, PartialEq, Eq, Structural)]
pub struct FrameReport {
    /// Whether queued edits were painted.
    pub flushed: bool,
    /// Whether the grid was taken one generation on.
    pub stepped: bool,
}

/// Whether a coordinate of the world lies on the grid.
pub open spec fn in_world(coordinate: int) -> bool {
    -WORLD_UNIT <= coordinate <= WORLD_UNIT
}

/// The index, along one axis of `extent` cells, of the cell that holds a
/// coordinate of the grid: with `u` the coordinate's place between 0 at the
/// low edge and 1 at the high edge, the least whole number that is not
/// under `extent * u`, less one; at most `i32::MAX`.
///
/// The grid spans two units of the world, which are 0x200_0000 steps, and
/// the coordinate lies `coordinate + 0x100_0000` steps from the low edge.
pub open spec fn pixel(extent: nat, coordinate: int) -> int {
    let scaled = extent * (coordinate + 0x100_0000);
    let cell = (scaled + 0x1ff_ffff) / 0x200_0000 - 1;
    if cell > 0x7fff_ffff {
        0x7fff_ffff
    } else {
        cell
    }
}

/// The cell of a grid of `width` by `height` that holds `pos`. A position
/// off the grid on either axis gives the sentinel on both.
pub open spec fn pix_pos(width: nat, height: nat, pos: WorldPos) -> (i32, i32) {
    if in_world(pos.x as int) && in_world(pos.y as int) {
        (pixel(width, pos.x as int) as i32, pixel(height, pos.y as int) as i32)
    } else {
        (SENTINEL, SENTINEL)
    }
}

/// The kind with which the right button paints: the negative of `kind`,
/// and `i32::MAX` for the one kind that has no negative.
pub open spec fn erasing(kind: i32) -> i32 {
    if kind == i32::MIN {
        i32::MAX
    } else {
        (-kind) as i32
    }
}

/// Whether a step is due in a frame that took `delta_time` nanoseconds and
/// starts `elapsed` nanoseconds after the last step.
///
/// Without the rate limit every frame of a running simulation steps. With
/// it, a step is due once the time since the last step exceeds the period
/// of `update_rate` less the frame's own time; at rate 0 none is ever due.
pub open spec fn step_due(config: SimulationConfig, elapsed: u64, delta_time: u64) -> bool {
    config.running && (!config.rate_limited || (config.update_rate > 0 && (elapsed + delta_time)
        * config.update_rate > FULL_PERIOD))
}

/// The settings with which a simulation starts.
pub open spec fn default_config() -> SimulationConfig {
    SimulationConfig {
        grid_size: (56u32, 56u32),
        generate_random: true,
        update_rate: 60_000,
        rate_limited: true,
        running: true,
        active_kernel: Automata::GameOfLife,
        brush_kind: 1,
        brush_radius: 5,
    }
}

/// The simulation as a plain value.
pub ghost struct Simulation {
    pub config: SimulationConfig,
    pub grids: Grids,
    pub slots: Seq<EditEntry>,
    pub kernel: Automata,
    pub update_queued: bool,
    pub generation: u64,
}

impl Simulation {
    /// The grid and the queue are well formed.
    pub open spec fn wf(self) -> bool {
        self.grids.wf() && self.slots.len() == CAPACITY
    }

    /// The edit that a button press at `pos` queues.
    pub open spec fn edit_at(self, pos: WorldPos, erase: bool) -> EditEntry {
        let cell = pix_pos(self.grids.width, self.grids.height, pos);
        EditEntry {
            x: cell.0,
            y: cell.1,
            brush_kind: if erase {
                erasing(self.config.brush_kind)
            } else {
                self.config.brush_kind
            },
            brush_radius: self.config.brush_radius,
        }
    }

    /// The simulation once the frame's inputs have been read, short of a
    /// reset. A press of the left button queues one edit at `pos`; else a
    /// press of the right button queues one that erases; else nothing is
    /// queued for this frame. While `KEY_B` is held, `running` flips.
    pub open spec fn after_input(self, inputs: Inputs, pos: WorldPos) -> Simulation {
        let left = inputs.buttons_pressed.contains(MOUSE_LEFT);
        let right = inputs.buttons_pressed.contains(MOUSE_RIGHT);
        let running = if inputs.keys_held.contains(KEY_B) {
            !self.config.running
        } else {
            self.config.running
        };
        Simulation {
            config: SimulationConfig { running, ..self.config },
            slots: if left || right {
                batch_image(seq![self.edit_at(pos, !left)])
            } else {
                self.slots
            },
            update_queued: left || right,
            ..self
        }
    }

    /// Whether a frame paints: edits were queued in it, and not all of them
    /// are no-ops.
    pub open spec fn flush_due(self) -> bool {
        self.update_queued && has_edits(self.slots)
    }

    /// The simulation once the queued edits have been painted and the
    /// buffers exchanged; the simulation itself where the frame does not
    /// paint.
    pub open spec fn after_flush(self) -> Simulation {
        if self.flush_due() {
            Simulation {
                grids: self.grids.with_other(
                    flushed(self.slots, self.grids.current(), self.grids.width),
                ).swapped(),
                ..self
            }
        } else {
            self
        }
    }

    /// The simulation one generation on, with the buffers exchanged and the
    /// step counted. The counter stops at `u64::MAX`.
    pub open spec fn after_step(self) -> Simulation {
        Simulation {
            grids: self.grids.with_other(
                next_generation(
                    self.kernel,
                    self.grids.current(),
                    self.grids.width,
                    self.grids.height,
                ),
            ).swapped(),
            generation: if self.generation < u64::MAX {
                (self.generation + 1) as u64
            } else {
                self.generation
            },
            ..self
        }
    }

    /// The simulation after a frame that took `delta_time` nanoseconds and
    /// starts `elapsed` nanoseconds after the last step: first the edits,
    /// then the step if one is due.
    pub open spec fn after_frame(self, elapsed: u64, delta_time: u64) -> Simulation {
        if step_due(self.config, elapsed, delta_time) {
            self.after_flush().after_step()
        } else {
            self.after_flush()
        }
    }

    /// What a frame reports.
    pub open spec fn report(self, elapsed: u64, delta_time: u64) -> FrameReport {
        FrameReport {
            flushed: self.flush_due(),
            stepped: step_due(self.config, elapsed, delta_time),
        }
    }
}

/// The settings with which a simulation starts.
pub fn starting_config() -> (config: SimulationConfig)
    ensures
        config == default_config(),
{
    SimulationConfig {
        grid_size: (56, 56),
        generate_random: true,
        update_rate: 60_000,
        rate_limited: true,
        running: true,
        active_kernel: Automata::GameOfLife,
        brush_kind: 1,
        brush_radius: 5,
    }
}

/// The index of the cell that holds a coordinate of the grid, along an axis
/// of `extent` cells.
fn pixel_of(extent: u32, coordinate: i64) -> (cell: i32)
    requires
        in_world(coordinate as int),
    ensures
        cell == pixel(extent as nat, coordinate as int),
{
    let shifted: i64 = coordinate + WORLD_UNIT;
    assert(0 <= extent * shifted <= 0xffff_ffff * 0x200_0000) by (nonlinear_arith)
        requires
            0 <= shifted <= 0x200_0000,
            0 <= extent <= 0xffff_ffff,
    ;
    let scaled: i64 = (extent as i64) * shifted;
    let cell: i64 = (scaled + 2 * WORLD_UNIT - 1) / (2 * WORLD_UNIT) - 1;
    if cell > i32::MAX as i64 {
        i32::MAX
    } else {
        cell as i32
    }
}

/// The cell of a grid of `width` by `height` that holds `world_pos`; the
/// sentinel on both axes for a position off the grid.
pub fn locate(width: u32, height: u32, world_pos: WorldPos) -> (cell: (i32, i32))
    ensures
        cell == pix_pos(width as nat, height as nat, world_pos),
{
    if world_pos.x > WORLD_UNIT || world_pos.x < -WORLD_UNIT {
        (SENTINEL, SENTINEL)
    } else if world_pos.y > WORLD_UNIT || world_pos.y < -WORLD_UNIT {
        (SENTINEL, SENTINEL)
    } else {
        (pixel_of(width, world_pos.x), pixel_of(height, world_pos.y))
    }
}

/// Whether a step is due: see `step_due`.
pub fn is_step_due(config: &SimulationConfig, elapsed: u64, delta_time: u64) -> (due: bool)
    ensures
        due == step_due(*config, elapsed, delta_time),
{
    if !config.running {
        false
    } else if !config.rate_limited {
        true
    } else if config.update_rate == 0 {
        false
    } else {
        let waited: u128 = elapsed as u128 + delta_time as u128;
        assert(waited * config.update_rate <= 0x1_ffff_ffff_ffff_fffe * 0xffff_ffff)
            by (nonlinear_arith)
            requires
                0 <= waited <= 0x1_ffff_ffff_ffff_fffe,
                0 <= config.update_rate <= 0xffff_ffff,
        ;
        waited * (config.update_rate as u128) > FULL_PERIOD
    }
}

/// The settings, the grid, the queue and the kernel of one simulation.
pub struct AutomataBundle {
    /// The settings. They may be changed at any time; a new grid size or
    /// seeding takes effect with `reset_package`, a new kernel with
    /// `reset_compute`.
    pub config: SimulationConfig,
    package: AutomataPackage,
    compute_pipeline: AutomataComputePipeline,
    queue_compute_pipeline: QueueComputePipeline,
    time_since_last_compute_pass: Instant,
    update_queued: bool,
    generation: u64,
}

impl View for AutomataBundle {
    type V = Simulation;

    closed spec fn view(&self) -> Simulation {
        Simulation {
            config: self.config,
            grids: self.package@,
            slots: self.queue_compute_pipeline@,
            kernel: self.compute_pipeline.kernel(),
            update_queued: self.update_queued,
            generation: self.generation,
        }
    }
}

impl AutomataBundle {
    /// A simulation with the starting settings: a random grid of 56 by 56
    /// cells under the Game of Life, with no step taken yet.
    pub fn new() -> (bundle: Self)
        ensures
            bundle@.wf(),
            bundle@.config == default_config(),
            bundle@.grids.width == 56,
            bundle@.grids.height == 56,
            bundle@.grids.first_is_current,
            bundle@.slots == initial_image(56, 56),
            bundle@.kernel == Automata::GameOfLife,
            !bundle@.update_queued,
            bundle@.generation == 0,
    {
        let config: SimulationConfig = starting_config();
        Self::with_config(config).unwrap()
    }

    /// A simulation with the given settings, with no step taken yet.
    ///
    /// Fails with `InvalidDimensions` exactly when the grid size has a 0.
    pub fn with_config(config: SimulationConfig) -> (r: Result<Self, AutomataError>)
        requires
            config.grid_size.0 * config.grid_size.1 <= usize::MAX,
        ensures
            r is Err <==> config.grid_size.0 == 0 || config.grid_size.1 == 0,
            r matches Err(e) ==> e == AutomataError::InvalidDimensions,
            r matches Ok(bundle) ==> {
                &&& bundle@.wf()
                &&& bundle@.config == config
                &&& bundle@.grids.width == config.grid_size.0
                &&& bundle@.grids.height == config.grid_size.1
                &&& bundle@.grids.first_is_current
                &&& !config.generate_random ==> bundle@.grids.first == empty_cells(
                    (config.grid_size.0 * config.grid_size.1) as nat,
                ) && bundle@.grids.second == bundle@.grids.first
                &&& bundle@.slots == initial_image(
                    config.grid_size.0 as nat,
                    config.grid_size.1 as nat,
                )
                &&& bundle@.kernel == config.active_kernel
                &&& !bundle@.update_queued
                &&& bundle@.generation == 0
            },
    {
        let package: AutomataPackage = match AutomataPackage::new(
            config.grid_size.0,
            config.grid_size.1,
            config.generate_random,
        ) {
            Ok(package) => package,
            Err(e) => {
                return Err(e);
            },
        };
        let compute_pipeline: AutomataComputePipeline = AutomataComputePipeline::new(
            config.active_kernel,
        );
        let queue_compute_pipeline: QueueComputePipeline = QueueComputePipeline::new(&package);
        Ok(
            Self {
                config,
                package,
                compute_pipeline,
                queue_compute_pipeline,
                time_since_last_compute_pass: Instant::now(),
                update_queued: false,
                generation: 0,
            },
        )
    }

    /// The grid.
    pub fn package(&self) -> (package: &AutomataPackage)
        ensures
            package@ == self@.grids,
    {
        &self.package
    }

    /// The edit queue.
    pub fn queue(&self) -> (queue: &QueueComputePipeline)
        ensures
            queue@ == self@.slots,
    {
        &self.queue_compute_pipeline
    }

    /// The rule that is bound.
    pub fn kernel(&self) -> (kernel: Automata)
        ensures
            kernel == self@.kernel,
    {
        self.compute_pipeline.selected()
    }

    /// The number of steps taken since the simulation was made.
    pub fn generation(&self) -> (n: u64)
        ensures
            n == self@.generation,
    {
        self.generation
    }

    /// Whether edits were queued in this frame.
    pub fn update_queued(&self) -> (queued: bool)
        ensures
            queued == self@.update_queued,
    {
        self.update_queued
    }

    /// The cell of the grid that holds `world_pos`; the sentinel on both
    /// axes for a position off the grid.
    pub fn get_pix_pos(&self, world_pos: WorldPos) -> (cell: (i32, i32))
        ensures
            cell == pix_pos(self@.grids.width, self@.grids.height, world_pos),
    {
        locate(self.package.width(), self.package.height(), world_pos)
    }

    /// Reads the frame's inputs: queues the edit of a button press at
    /// `world_pos`, flips `running` while `KEY_B` is held, and resets the
    /// grid when `KEY_SPACE` was pressed.
    ///
    /// Fails only in the reset, with `InvalidDimensions`, exactly when the
    /// grid size of the settings has a 0. The inputs are taken in before the
    /// reset, so they stand either way.
    pub fn update(&mut self, input_manager: &InputManager, world_pos: WorldPos) -> (r: Result<
        (),
        AutomataError,
    >)
        requires
            input_manager@.keys_pressed.contains(KEY_SPACE) ==> old(self)@.config.grid_size.0 * old(
                self,
            )@.config.grid_size.1 <= usize::MAX,
        ensures
            final(self)@.wf(),
            !input_manager@.keys_pressed.contains(KEY_SPACE) ==> r is Ok && final(self)@ == old(
                self,
            )@.after_input(input_manager@, world_pos),
            input_manager@.keys_pressed.contains(KEY_SPACE) ==> Self::reset_outcome(
                old(self)@.after_input(input_manager@, world_pos),
                final(self)@,
                r,
            ),
    {
        let left: bool = input_manager.is_mouse_key_just_pressed(MOUSE_LEFT);
        let right: bool = input_manager.is_mouse_key_just_pressed(MOUSE_RIGHT);
        if left || right {
            let cell: (i32, i32) = self.get_pix_pos(world_pos);
            let brush_kind: i32 = if left {
                self.config.brush_kind
            } else if self.config.brush_kind == i32::MIN {
                i32::MAX
            } else {
                -self.config.brush_kind
            };
            let mut batch: Vec<EditEntry> = Vec::new();
            batch.push(
                EditEntry { x: cell.0, y: cell.1, brush_kind, brush_radius: self.config.brush_radius },
            );
            match self.queue_compute_pipeline.update_queue(batch) {
                Ok(()) => {
                    self.update_queued = true;
                },
                Err(e) => {
                    return Err(e);
                },
            }
        } else {
            self.update_queued = false;
        }
        if input_manager.is_key_pressed(KEY_B) {
            self.config.running = !self.config.running;
        }
        let r: Result<(), AutomataError> = if input_manager.is_key_just_pressed(KEY_SPACE) {
            self.reset_package()
        } else {
            Ok(())
        };
        proof {
            use_type_invariant(&self.package);
            use_type_invariant(&self.queue_compute_pipeline);
        }
        r
    }

    /// How a reset of the grid relates the simulation after it to the one
    /// before it. It fails exactly when the grid size of the settings has a
    /// 0, and then changes nothing. Else the grid is a new one of that
    /// size, with the first buffer current, and empty unless the settings
    /// ask for random weights. Nothing but the grid changes.
    pub open spec fn reset_outcome(before: Simulation, after: Simulation, r: Result<
        (),
        AutomataError,
    >) -> bool {
        let width = before.config.grid_size.0;
        let height = before.config.grid_size.1;
        &&& r is Err <==> width == 0 || height == 0
        &&& r matches Err(e) ==> e == AutomataError::InvalidDimensions && after == before
        &&& r is Ok ==> {
            &&& after == (Simulation { grids: after.grids, ..before })
            &&& after.grids.wf()
            &&& after.grids.width == width
            &&& after.grids.height == height
            &&& after.grids.first_is_current
            &&& !before.config.generate_random ==> after.grids.first == empty_cells((width * height) as nat)
                && after.grids.second == after.grids.first
        }
    }

    /// Replaces the grid by a new one of the size and seeding that the
    /// settings give. The first buffer of the new grid is the current one.
    pub fn reset_package(&mut self) -> (r: Result<(), AutomataError>)
        requires
            old(self)@.config.grid_size.0 * old(self)@.config.grid_size.1 <= usize::MAX,
        ensures
            Self::reset_outcome(old(self)@, final(self)@, r),
    {
        self.package.recreate(
            self.config.grid_size.0,
            self.config.grid_size.1,
            self.config.generate_random,
        )
    }

    /// Binds the rule that the settings name. The grid stays as it is.
    pub fn reset_compute(&mut self)
        ensures
            final(self)@ == (Simulation { kernel: old(self)@.config.active_kernel, ..old(self)@ }),
    {
        self.compute_pipeline = AutomataComputePipeline::new(self.config.active_kernel);
    }

    /// Runs one frame that took `delta_time` nanoseconds, by the clock: the
    /// time since the last step is read from it, and a step restarts it.
    /// What the frame does with that time is what `automata_pass_at` does.
    ///
    /// Nothing but a step restarts the stop-watch. It runs on while the
    /// simulation is paused, so a simulation that resumes after more than a
    /// period steps in its first frame.
    pub fn automata_pass(&mut self, delta_time: u64) -> (report: FrameReport)
        ensures
            final(self)@.wf(),
            exists|elapsed: u64|
                final(self)@ == old(self)@.after_frame(elapsed, delta_time) && report == old(
                    self,
                )@.report(elapsed, delta_time),
    {
        let elapsed: u64 = elapsed_nanos(&self.time_since_last_compute_pass);
        let report: FrameReport = self.automata_pass_at(elapsed, delta_time);
        if report.stepped {
            self.time_since_last_compute_pass = Instant::now();
        }
        assert(self@ == old(self)@.after_frame(elapsed, delta_time) && report == old(self)@.report(
            elapsed,
            delta_time,
        ));
        report
    }

    /// Runs one frame that took `delta_time` nanoseconds and starts
    /// `elapsed` nanoseconds after the last step.
    pub fn automata_pass_at(&mut self, elapsed: u64, delta_time: u64) -> (report: FrameReport)
        ensures
            final(self)@.wf(),
            final(self)@ == old(self)@.after_frame(elapsed, delta_time),
            report == old(self)@.report(elapsed, delta_time),
    {
        let mut flushed: bool = false;
        if self.update_queued {
            flushed = self.queue_compute_pipeline.compute_pass(&mut self.package);
            if flushed {
                self.package.swap();
            }
        }
        let stepped: bool = is_step_due(&self.config, elapsed, delta_time);
        if stepped {
            self.compute_pipeline.compute_pass(&mut self.package);
            self.package.swap();
            if self.generation < u64::MAX {
                self.generation = self.generation + 1;
            }
        }
        proof {
            use_type_invariant(&self.package);
            use_type_invariant(&self.queue_compute_pipeline);
        }
        FrameReport { flushed, stepped }
    }
}

/// A press of a button off the grid changes no cell, whatever the brush
/// and its radius: the edit it queues lies on the sentinel column, paints
/// nowhere, and the frame that follows does not touch the grid.
pub proof fn lemma_edit_off_grid_changes_nothing(sim: Simulation, inputs: Inputs, pos: WorldPos)
    requires
        !in_world(pos.x as int) || !in_world(pos.y as int),
    ensures
        sim.edit_at(pos, false).x == SENTINEL,
        sim.edit_at(pos, true).x == SENTINEL,
        forall|x: int, y: int|
            !sim.edit_at(pos, false).paints(x, y) && !sim.edit_at(pos, true).paints(x, y),
        !sim.after_input(inputs, pos).flush_due(),
        sim.after_input(inputs, pos).after_flush().grids == sim.grids,
{
    // A press queues one edit on the sentinel column in front of unused
    // slots: every slot is a no-op.
    let next = sim.after_input(inputs, pos);
    if next.update_queued {
        assert(forall|k: int| 0 <= k < next.slots.len() ==> (#[trigger] next.slots[k]).noop());
    }
}

/// Under the rate limit no step is taken while the time since the last
/// step, with the frame's own time added, is within one period of the rate.
pub proof fn lemma_no_step_within_period(config: SimulationConfig, elapsed: u64, delta_time: u64)
    requires
        config.rate_limited,
        (elapsed + delta_time) * config.update_rate <= FULL_PERIOD,
    ensures
        !step_due(config, elapsed, delta_time),
{
}

/// Under the rate limit a running simulation steps as soon as the time
/// since the last step, with the frame's own time added, exceeds one period.
pub proof fn lemma_step_after_period(config: SimulationConfig, elapsed: u64, delta_time: u64)
    requires
        config.running,
        config.rate_limited,
        (elapsed + delta_time) * config.update_rate > FULL_PERIOD,
    ensures
        step_due(config, elapsed, delta_time),
{
    assert(config.update_rate > 0) by (nonlinear_arith)
        requires
            (elapsed + delta_time) * config.update_rate > 0,
            elapsed + delta_time >= 0,
    ;
}

/// Under the rate limit a rate of 0 never steps, however long the wait.
pub proof fn lemma_no_step_at_rate_zero(config: SimulationConfig, elapsed: u64, delta_time: u64)
    requires
        config.rate_limited,
        config.update_rate == 0,
    ensures
        !step_due(config, elapsed, delta_time),
{
}

/// At 60 hertz under the rate limit, a running simulation steps exactly in
/// the frames in which the time since the last step exceeds a sixtieth of
/// a second less the frame's own time.
pub proof fn lemma_sixty_hertz(config: SimulationConfig, elapsed: u64, delta_time: u64)
    requires
        config.running,
        config.rate_limited,
        config.update_rate == 60_000,
    ensures
        step_due(config, elapsed, delta_time) <==> 3 * elapsed > 50_000_000 - 3 * delta_time,
{
}

/// While the simulation is paused a frame only paints: queued edits reach
/// the grid, no generation is computed and the step counter stands still.
pub proof fn lemma_paused_frame_only_paints(sim: Simulation, elapsed: u64, delta_time: u64)
    requires
        !sim.config.running,
    ensures
        !sim.report(elapsed, delta_time).stepped,
        sim.after_frame(elapsed, delta_time) == sim.after_flush(),
        sim.after_frame(elapsed, delta_time).generation == sim.generation,
{
}

/// A frame in which no edit was queued and no step is due leaves both
/// buffers, and everything else, as they were.
pub proof fn lemma_idle_frame_changes_nothing(sim: Simulation, elapsed: u64, delta_time: u64)
    requires
        !sim.update_queued || !has_edits(sim.slots),
        !step_due(sim.config, elapsed, delta_time),
    ensures
        sim.after_frame(elapsed, delta_time) == sim,
{
}

} // verus!
