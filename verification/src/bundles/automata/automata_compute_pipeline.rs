//! The kernels: the rules that take one generation of the grid to the next.
//!
//! A kernel reads the current buffer and writes the whole next generation
//! to the other buffer. The grid does not wrap: a position outside it
//! counts as an empty cell.

use crate::packages::automata_package::{
    empty_cells,
    lemma_index_in_range,
    lemma_position_in_range,
    AutomataPackage,
    Texel,
    EMPTY,
    FULL,
};
use vstd::prelude::*;

verus! {

/// The automaton rules that can be selected.
#[derive(Clone, Copy, Debug, PartialEq, Eq, Structural)]
pub enum Automata {
    /// Conway's rule on cells that are alive or dead: a cell with three live
    /// neighbours is alive in the next generation, and so is a live cell
    /// with two.
    GameOfLife,
    /// The same neighbourhood read as weights: the eight weights are added
    /// up, the sum decides whether the cell is drawn towards full or towards
    /// empty, and the cell moves half of the way.
    SmoothLife,
}

/// The least sum of neighbour weights at which a live cell stays alive
/// under `SmoothLife`: one and a half full cells.
pub const SURVIVAL_FROM: u32 = 383;

/// The least sum of neighbour weights at which a dead cell comes alive
/// under `SmoothLife`: two and a half full cells.
pub const BIRTH_FROM: u32 = 638;

/// The greatest sum of neighbour weights at which a cell lives under
/// `SmoothLife`: three and a half full cells.
pub const LIFE_UP_TO: u32 = 892;

/// The cell in column `x` of row `y` of a grid of `width` by `height`; an
/// empty cell where the grid has no such position, or `cells` no such cell.
pub open spec fn cell_at(cells: Seq<Texel>, width: nat, height: nat, x: int, y: int) -> Texel {
    if 0 <= x < width && 0 <= y < height && y * width + x < cells.len() {
        cells[y * width + x]
    } else {
        Texel(EMPTY)
    }
}

/// 1 where the cell at the position is alive, else 0.
pub open spec fn live_at(cells: Seq<Texel>, width: nat, height: nat, x: int, y: int) -> int {
    if cell_at(cells, width, height, x, y).alive() {
        1
    } else {
        0
    }
}

/// The number of live cells among the eight neighbours of a position.
pub open spec fn live_neighbours(cells: Seq<Texel>, width: nat, height: nat, x: int, y: int) -> int {
    live_at(cells, width, height, x - 1, y - 1) + live_at(cells, width, height, x, y - 1)
        + live_at(cells, width, height, x + 1, y - 1) + live_at(cells, width, height, x - 1, y)
        + live_at(cells, width, height, x + 1, y) + live_at(cells, width, height, x - 1, y + 1)
        + live_at(cells, width, height, x, y + 1) + live_at(cells, width, height, x + 1, y + 1)
}

/// The sum of the weights of the eight neighbours of a position.
pub open spec fn neighbour_weight(cells: Seq<Texel>, width: nat, height: nat, x: int, y: int) -> int {
    cell_at(cells, width, height, x - 1, y - 1).0 + cell_at(cells, width, height, x, y - 1).0
        + cell_at(cells, width, height, x + 1, y - 1).0 + cell_at(cells, width, height, x - 1, y).0
        + cell_at(cells, width, height, x + 1, y).0 + cell_at(cells, width, height, x - 1, y + 1).0
        + cell_at(cells, width, height, x, y + 1).0 + cell_at(cells, width, height, x + 1, y + 1).0
}

/// Conway's rule: what becomes of a cell with `neighbours` live neighbours.
pub open spec fn life_rule(alive: bool, neighbours: int) -> Texel {
    if neighbours == 3 || (alive && neighbours == 2) {
        Texel(FULL)
    } else {
        Texel(EMPTY)
    }
}

/// The smooth rule: what becomes of a cell of weight `own` whose neighbours
/// weigh `sum` together.
pub open spec fn smooth_rule(own: u8, sum: int) -> Texel {
    let from = if Texel(own).alive() {
        SURVIVAL_FROM
    } else {
        BIRTH_FROM
    };
    let target = if from <= sum <= LIFE_UP_TO {
        FULL
    } else {
        EMPTY
    };
    Texel(((own + target) / 2) as u8)
}

/// The cell in column `x` of row `y` in the generation that follows `cells`.
pub open spec fn next_cell(
    kernel: Automata,
    cells: Seq<Texel>,
    width: nat,
    height: nat,
    x: int,
    y: int,
) -> Texel {
    match kernel {
        Automata::GameOfLife => life_rule(
            cell_at(cells, width, height, x, y).alive(),
            live_neighbours(cells, width, height, x, y),
        ),
        Automata::SmoothLife => smooth_rule(
            cell_at(cells, width, height, x, y).0,
            neighbour_weight(cells, width, height, x, y),
        ),
    }
}

/// The generation that follows `cells` under `kernel`.
pub open spec fn next_generation(kernel: Automata, cells: Seq<Texel>, width: nat, height: nat) -> Seq<
    Texel,
> {
    Seq::new(
        cells.len(),
        |i: int| next_cell(kernel, cells, width, height, i % (width as int), i / (width as int)),
    )
}

impl Automata {
    /// The rule's name as it is shown to the user.
    pub fn label(&self) -> (text: &'static str)
        ensures
            text@ == match *self {
                Automata::GameOfLife => "Game Of Life"@,
                Automata::SmoothLife => "Smooth Life"@,
            },
    {
        match self {
            Automata::GameOfLife => "Game Of Life",
            Automata::SmoothLife => "Smooth Life",
        }
    }
}

/// The cell in column `x` of row `y`; an empty cell outside the grid.
fn read_cell(cells: &Vec<Texel>, width: u32, height: u32, x: i64, y: i64) -> (t: Texel)
    ensures
        t == cell_at(cells@, width as nat, height as nat, x as int, y as int),
{
    if 0 <= x && x < width as i64 && 0 <= y && y < height as i64 {
        assert(0 <= y * width <= 0xffff_ffff * 0xffff_ffff) by (nonlinear_arith)
            requires
                0 <= y <= 0xffff_ffff,
                0 <= width <= 0xffff_ffff,
        ;
        let index: u64 = (y as u64) * (width as u64) + (x as u64);
        if index < cells.len() as u64 {
            cells[index as usize]
        } else {
            Texel(EMPTY)
        }
    } else {
        Texel(EMPTY)
    }
}

/// The eight neighbours of a position, row by row.
fn read_neighbours(cells: &Vec<Texel>, width: u32, height: u32, x: u32, y: u32) -> (around: [Texel; 8])
    ensures
        around@ == seq![
            cell_at(cells@, width as nat, height as nat, x - 1, y - 1),
            cell_at(cells@, width as nat, height as nat, x as int, y - 1),
            cell_at(cells@, width as nat, height as nat, x + 1, y - 1),
            cell_at(cells@, width as nat, height as nat, x - 1, y as int),
            cell_at(cells@, width as nat, height as nat, x + 1, y as int),
            cell_at(cells@, width as nat, height as nat, x - 1, y + 1),
            cell_at(cells@, width as nat, height as nat, x as int, y + 1),
            cell_at(cells@, width as nat, height as nat, x + 1, y + 1),
        ],
{
    let cx: i64 = x as i64;
    let cy: i64 = y as i64;
    let around: [Texel; 8] = [
        read_cell(cells, width, height, cx - 1, cy - 1),
        read_cell(cells, width, height, cx, cy - 1),
        read_cell(cells, width, height, cx + 1, cy - 1),
        read_cell(cells, width, height, cx - 1, cy),
        read_cell(cells, width, height, cx + 1, cy),
        read_cell(cells, width, height, cx - 1, cy + 1),
        read_cell(cells, width, height, cx, cy + 1),
        read_cell(cells, width, height, cx + 1, cy + 1),
    ];
    assert(around@ =~= seq![
        cell_at(cells@, width as nat, height as nat, x - 1, y - 1),
        cell_at(cells@, width as nat, height as nat, x as int, y - 1),
        cell_at(cells@, width as nat, height as nat, x + 1, y - 1),
        cell_at(cells@, width as nat, height as nat, x - 1, y as int),
        cell_at(cells@, width as nat, height as nat, x + 1, y as int),
        cell_at(cells@, width as nat, height as nat, x - 1, y + 1),
        cell_at(cells@, width as nat, height as nat, x as int, y + 1),
        cell_at(cells@, width as nat, height as nat, x + 1, y + 1),
    ]);
    around
}

/// The kernel that is bound for the next steps.
pub struct AutomataComputePipeline {
    selected: Automata,
}

impl AutomataComputePipeline {
    /// The rule that the pipeline applies.
    pub closed spec fn kernel(&self) -> Automata {
        self.selected
    }

    /// A pipeline that applies the rule `selected`.
    pub fn new(selected: Automata) -> (pipeline: Self)
        ensures
            pipeline.kernel() == selected,
    {
        Self { selected }
    }

    /// The rule that the pipeline applies.
    pub fn selected(&self) -> (kernel: Automata)
        ensures
            kernel == self.kernel(),
    {
        self.selected
    }

    /// The cell in column `x` of row `y` in the generation that follows
    /// `cells`.
    pub fn step_cell(&self, cells: &Vec<Texel>, width: u32, height: u32, x: u32, y: u32) -> (t: Texel)
        ensures
            t == next_cell(self.kernel(), cells@, width as nat, height as nat, x as int, y as int),
    {
        let own: Texel = read_cell(cells, width, height, x as i64, y as i64);
        let around: [Texel; 8] = read_neighbours(cells, width, height, x, y);
        match self.selected {
            Automata::GameOfLife => {
                let mut neighbours: u32 = 0;
                let mut k: usize = 0;
                while k < 8
                    invariant
                        k <= 8,
                        neighbours == live_count(around@, k as int),
                        neighbours <= k,
                    decreases 8 - k,
                {
                    if around[k].is_alive() {
                        neighbours = neighbours + 1;
                    }
                    k = k + 1;
                }
                proof {
                    lemma_live_count_unfolds(around@);
                }
                if neighbours == 3 || (own.is_alive() && neighbours == 2) {
                    Texel(FULL)
                } else {
                    Texel(EMPTY)
                }
            },
            Automata::SmoothLife => {
                let mut sum: u32 = 0;
                let mut k: usize = 0;
                while k < 8
                    invariant
                        k <= 8,
                        sum == weight_sum(around@, k as int),
                        sum <= 255 * k,
                    decreases 8 - k,
                {
                    sum = sum + around[k].0 as u32;
                    k = k + 1;
                }
                proof {
                    lemma_weight_sum_unfolds(around@);
                }
                let from: u32 = if own.is_alive() {
                    SURVIVAL_FROM
                } else {
                    BIRTH_FROM
                };
                let target: u32 = if from <= sum && sum <= LIFE_UP_TO {
                    FULL as u32
                } else {
                    EMPTY as u32
                };
                Texel(((own.0 as u32 + target) / 2) as u8)
            },
        }
    }

    /// Takes the grid one generation on: reads the current buffer and
    /// writes the next generation of every cell to the other buffer. The
    /// roles are left as they are; the caller exchanges them.
    pub fn compute_pass(&self, automata_package: &mut AutomataPackage)
        ensures
            final(automata_package)@ == old(automata_package)@.with_other(
                next_generation(
                    self.kernel(),
                    old(automata_package)@.current(),
                    old(automata_package)@.width,
                    old(automata_package)@.height,
                ),
            ),
    {
        proof {
            use_type_invariant(&*automata_package);
        }
        let width: u32 = automata_package.width();
        let height: u32 = automata_package.height();
        let current: &Vec<Texel> = automata_package.current();
        let count: usize = current.len();
        let mut cells: Vec<Texel> = Vec::new();
        let mut i: usize = 0;
        while i < count
            invariant
                i <= count,
                width > 0,
                count == width * height,
                count == current@.len(),
                cells@.len() == i,
                forall|j: int|
                    0 <= j < i ==> cells@[j] == next_cell(
                        self.kernel(),
                        current@,
                        width as nat,
                        height as nat,
                        j % (width as int),
                        j / (width as int),
                    ),
            decreases count - i,
        {
            proof {
                lemma_position_in_range(i as nat, width as nat, height as nat);
            }
            let x: u32 = (i % (width as usize)) as u32;
            let y: u32 = (i / (width as usize)) as u32;
            let value: Texel = self.step_cell(current, width, height, x, y);
            cells.push(value);
            i = i + 1;
        }
        assert(cells@ =~= next_generation(
            self.kernel(),
            current@,
            width as nat,
            height as nat,
        ));
        automata_package.write_other(cells);
    }
}

/// The number of live cells among the first `n` of `around`.
spec fn live_count(around: Seq<Texel>, n: int) -> int
    decreases n,
{
    if n <= 0 {
        0
    } else {
        live_count(around, n - 1) + if around[n - 1].alive() {
            1int
        } else {
            0int
        }
    }
}

/// The sum of the weights of the first `n` of `around`.
spec fn weight_sum(around: Seq<Texel>, n: int) -> int
    decreases n,
{
    if n <= 0 {
        0
    } else {
        weight_sum(around, n - 1) + around[n - 1].0
    }
}

proof fn lemma_live_count_unfolds(around: Seq<Texel>)
    ensures
        live_count(around, 8) == (if around[0].alive() { 1int } else { 0int })
            + (if around[1].alive() { 1int } else { 0int })
            + (if around[2].alive() { 1int } else { 0int })
            + (if around[3].alive() { 1int } else { 0int })
            + (if around[4].alive() { 1int } else { 0int })
            + (if around[5].alive() { 1int } else { 0int })
            + (if around[6].alive() { 1int } else { 0int })
            + (if around[7].alive() { 1int } else { 0int }),
{
    reveal_with_fuel(live_count, 9);
}

proof fn lemma_weight_sum_unfolds(around: Seq<Texel>)
    ensures
        weight_sum(around, 8) == around[0].0 + around[1].0 + around[2].0 + around[3].0
            + around[4].0 + around[5].0 + around[6].0 + around[7].0,
{
    reveal_with_fuel(weight_sum, 9);
}

/// The next generation, cell by cell: the cell in column `x` of row `y` is
/// what the rule makes of that cell and its neighbours.
pub proof fn lemma_next_generation_cell(
    kernel: Automata,
    cells: Seq<Texel>,
    width: nat,
    height: nat,
    x: nat,
    y: nat,
)
    requires
        cells.len() == width * height,
        x < width,
        y < height,
    ensures
        y * width + x < cells.len(),
        next_generation(kernel, cells, width, height)[(y * width + x) as int] == next_cell(
            kernel,
            cells,
            width,
            height,
            x as int,
            y as int,
        ),
{
    lemma_index_in_range(x, y, width, height);
}

/// The next generation has as many cells as the one before it, and under
/// the Game of Life every one of them is full or empty.
pub proof fn lemma_life_is_binary(cells: Seq<Texel>, width: nat, height: nat, i: int)
    requires
        0 <= i < cells.len(),
    ensures
        next_generation(Automata::GameOfLife, cells, width, height).len() == cells.len(),
        next_generation(Automata::GameOfLife, cells, width, height)[i] == Texel(FULL)
            || next_generation(Automata::GameOfLife, cells, width, height)[i] == Texel(EMPTY),
{
}

/// An empty grid stays empty, under either rule and whatever its size.
pub proof fn lemma_empty_grid_stays_empty(kernel: Automata, count: nat, width: nat, height: nat)
    ensures
        next_generation(kernel, empty_cells(count), width, height) == empty_cells(count),
{
    assert(next_generation(kernel, empty_cells(count), width, height) =~= empty_cells(count));
}

} // verus!
