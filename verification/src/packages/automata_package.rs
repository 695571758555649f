//! The grid store: two equally sized cell buffers and the flag that says
//! which of them holds the latest committed state.
//!
//! A cell is an 8-bit weight: 0 is an empty cell, 255 a full one. A grid is
//! stored row by row, the cell in column `x` of row `y` at index
//! `y * width + x`.
//!
//! A store that has just been built or recreated has its first buffer as
//! the current one, and both of its buffers are valid grids. A pass reads
//! the current buffer and writes the other one; the exchange of the two is
//! a step of its own, which moves no cell. The dimensions of a store never
//! change but by recreating it.

use crate::utility::errors::AutomataError;
use crate::utility::structs::PingPongData;
use rand::rngs::ThreadRng;
use rand::Rng;
use vstd::prelude::*;

verus! {

/// One cell of the grid: a weight between 0 (empty) and 255 (full).
#[derive(Clone, Copy, Debug, PartialEq, Eq, Structural)]
pub struct Texel(pub u8);

/// The weight of an empty cell.
pub const EMPTY: u8 = 0;

/// The weight of a full cell.
pub const FULL: u8 = 255;

/// The least weight at which a cell counts as alive.
pub const ALIVE_FROM: u8 = 128;

impl Texel {
    /// Whether the cell counts as alive.
    pub open spec fn alive(self) -> bool {
        self.0 >= ALIVE_FROM
    }

    /// Whether the cell counts as alive.
    pub fn is_alive(&self) -> (r: bool)
        ensures
            r == self.alive(),
    {
        self.0 >= ALIVE_FROM
    }
}

/// An outside type: the handle to rand's thread-local generator. Nothing is
/// known of what it holds.
#[verifier::external_type_specification]
#[verifier::external_body]
pub struct ExThreadRng(ThreadRng);

/// `rand::thread_rng`: hands out the thread-local generator. Nothing is
/// claimed of it. It takes no input; it panics only where the system cannot
/// seed the generator.
pub assume_specification[ rand::thread_rng ]() -> (rng: ThreadRng)
;

/// Draws one weight with `rand::Rng::gen::<u8>`. Every weight can come
/// back, so nothing is claimed of the result.
#[verifier::external_body]
fn random_weight(rng: &mut ThreadRng) -> (weight: u8) {
    rng.gen()
}

/// A grid store as a plain value.
pub ghost struct Grids {
    pub width: nat,
    pub height: nat,
    pub first: Seq<Texel>,
    pub second: Seq<Texel>,
    pub first_is_current: bool,
}

impl Grids {
    /// Both buffers hold one cell for each position of a grid that has at
    /// least one column and one row.
    pub open spec fn wf(self) -> bool {
        &&& self.width > 0
        &&& self.height > 0
        &&& self.first.len() == self.width * self.height
        &&& self.second.len() == self.width * self.height
    }

    /// The buffer that holds the latest committed state.
    pub open spec fn current(self) -> Seq<Texel> {
        if self.first_is_current {
            self.first
        } else {
            self.second
        }
    }

    /// The buffer that the next pass writes to.
    pub open spec fn other(self) -> Seq<Texel> {
        if self.first_is_current {
            self.second
        } else {
            self.first
        }
    }

    /// The same buffers with their roles exchanged.
    pub open spec fn swapped(self) -> Grids {
        Grids { first_is_current: !self.first_is_current, ..self }
    }

    /// The same store with `cells` as the buffer that is not current.
    pub open spec fn with_other(self, cells: Seq<Texel>) -> Grids {
        if self.first_is_current {
            Grids { second: cells, ..self }
        } else {
            Grids { first: cells, ..self }
        }
    }
}

/// A buffer of `count` empty cells.
pub open spec fn empty_cells(count: nat) -> Seq<Texel> {
    Seq::new(count, |i: int| Texel(EMPTY))
}

/// The index, along an axis of `extent` cells, of the cell that lies
/// nearest to the centre of pixel `pixel` of a frame of `frame_extent`
/// pixels along that axis.
pub open spec fn nearest(extent: nat, frame_extent: nat, pixel: int) -> int {
    ((2 * pixel + 1) * extent) / ((2 * frame_extent) as int)
}

/// The frame of `frame_width` by `frame_height` pixels that shows the
/// current buffer: every pixel takes the weight of the cell nearest to its
/// centre, and no two cells are blended.
pub open spec fn presented(grids: Grids, frame_width: nat, frame_height: nat) -> Seq<Texel> {
    Seq::new(
        frame_width * frame_height,
        |i: int|
            grids.current()[nearest(grids.height, frame_height, i / (frame_width as int))
                * grids.width + nearest(grids.width, frame_width, i % (frame_width as int))],
    )
}

/// Exchanging the roles twice gives the store back as it was, and one
/// exchange makes the other buffer the current one. No cell changes.
pub proof fn lemma_swap_is_involution(grids: Grids)
    ensures
        grids.swapped().swapped() == grids,
        grids.swapped().current() == grids.other(),
        grids.swapped().other() == grids.current(),
        grids.swapped().first == grids.first,
        grids.swapped().second == grids.second,
        grids.swapped().width == grids.width,
        grids.swapped().height == grids.height,
        grids.swapped().wf() == grids.wf(),
{
}

/// A pass writes the buffer that is not current and nothing else: what is
/// current stays as it is, and so do the dimensions and the roles.
pub proof fn lemma_pass_keeps_current(grids: Grids, cells: Seq<Texel>)
    ensures
        grids.with_other(cells).current() == grids.current(),
        grids.with_other(cells).other() == cells,
        grids.with_other(cells).width == grids.width,
        grids.with_other(cells).height == grids.height,
        grids.with_other(cells).first_is_current == grids.first_is_current,
        grids.wf() && cells.len() == grids.width * grids.height ==> grids.with_other(cells).wf(),
{
}

/// The two grid buffers, their dimensions and their roles.
pub struct AutomataPackage {
    width: u32,
    height: u32,
    bind_groups: PingPongData<Vec<Texel>>,
}

impl View for AutomataPackage {
    type V = Grids;

    closed spec fn view(&self) -> Grids {
        Grids {
            width: self.width as nat,
            height: self.height as nat,
            first: self.bind_groups@.first@,
            second: self.bind_groups@.second@,
            first_is_current: self.bind_groups@.first_is_current,
        }
    }
}

impl AutomataPackage {
    /// What holds of every store: both buffers hold one cell for each
    /// position of the grid, and the grid has at least one cell.
    #[verifier::type_invariant]
    pub open spec fn inv(&self) -> bool {
        self@.wf()
    }

    /// Builds a store of `width` by `height` cells. With `generate_random`
    /// each buffer is filled with random weights of its own; without it both
    /// are empty. The first buffer starts as the current one.
    ///
    /// Fails with `InvalidDimensions` exactly when `width` or `height` is 0.
    pub fn new(width: u32, height: u32, generate_random: bool) -> (r: Result<
        Self,
        AutomataError,
    >)
        requires
            width * height <= usize::MAX,
        ensures
            r is Err <==> width == 0 || height == 0,
            r matches Err(e) ==> e == AutomataError::InvalidDimensions,
            r matches Ok(package) ==> {
                &&& package@.wf()
                &&& package@.width == width
                &&& package@.height == height
                &&& package@.first_is_current
                &&& !generate_random ==> package@.first == empty_cells((width * height) as nat)
                    && package@.second == empty_cells((width * height) as nat)
            },
    {
        if width == 0 || height == 0 {
            return Err(AutomataError::InvalidDimensions);
        }
        let count: usize = cell_count(width, height);
        let first: Vec<Texel> = if generate_random {
            generate_random_data(count)
        } else {
            generate_empty_data(count)
        };
        let second: Vec<Texel> = if generate_random {
            generate_random_data(count)
        } else {
            generate_empty_data(count)
        };
        Self::from_data(width, height, first, second)
    }

    /// Builds a store from two given buffers; `first` starts as the current
    /// one.
    ///
    /// Fails with `InvalidDimensions` exactly when `width` or `height` is 0
    /// or a buffer does not hold `width * height` cells.
    pub fn from_data(width: u32, height: u32, first: Vec<Texel>, second: Vec<Texel>) -> (r: Result<
        Self,
        AutomataError,
    >)
        ensures
            r is Ok <==> (Grids {
                width: width as nat,
                height: height as nat,
                first: first@,
                second: second@,
                first_is_current: true,
            }).wf(),
            r matches Err(e) ==> e == AutomataError::InvalidDimensions,
            r matches Ok(package) ==> package@ == (Grids {
                width: width as nat,
                height: height as nat,
                first: first@,
                second: second@,
                first_is_current: true,
            }),
    {
        if width == 0 || height == 0 {
            return Err(AutomataError::InvalidDimensions);
        }
        proof {
            lemma_product_fits(width as nat, height as nat);
        }
        let count: u64 = (width as u64) * (height as u64);
        if first.len() as u64 != count || second.len() as u64 != count {
            return Err(AutomataError::InvalidDimensions);
        }
        Ok(Self { width, height, bind_groups: PingPongData::new(first, second) })
    }

    /// The number of columns.
    pub fn width(&self) -> (w: u32)
        ensures
            w == self@.width,
    {
        self.width
    }

    /// The number of rows.
    pub fn height(&self) -> (h: u32)
        ensures
            h == self@.height,
    {
        self.height
    }

    /// The buffer that holds the latest committed state.
    pub fn current(&self) -> (cells: &Vec<Texel>)
        ensures
            cells@ == self@.current(),
    {
        self.bind_groups.pull_current()
    }

    /// The buffer that the next pass writes to.
    pub fn other(&self) -> (cells: &Vec<Texel>)
        ensures
            cells@ == self@.other(),
    {
        self.bind_groups.pull_other()
    }

    /// Exchanges the roles of the two buffers. No cell is touched.
    pub fn swap(&mut self)
        ensures
            final(self)@ == old(self)@.swapped(),
    {
        proof {
            use_type_invariant(&*self);
        }
        self.bind_groups.ping_pong();
    }

    /// Replaces both buffers by those of a new store of `width` by `height`
    /// cells, seeded as `new` seeds them, with the first buffer current.
    ///
    /// Fails with `InvalidDimensions` exactly when `width` or `height` is 0;
    /// the store is then left as it was.
    pub fn recreate(&mut self, width: u32, height: u32, generate_random: bool) -> (r: Result<
        (),
        AutomataError,
    >)
        requires
            width * height <= usize::MAX,
        ensures
            r is Err <==> width == 0 || height == 0,
            r matches Err(e) ==> e == AutomataError::InvalidDimensions && *final(self) == *old(self),
            r is Ok ==> {
                &&& final(self)@.wf()
                &&& final(self)@.width == width
                &&& final(self)@.height == height
                &&& final(self)@.first_is_current
                &&& !generate_random ==> final(self)@.first == empty_cells((width * height) as nat)
                    && final(self)@.second == empty_cells((width * height) as nat)
            },
    {
        match Self::new(width, height, generate_random) {
            Ok(package) => {
                *self = package;
                Ok(())
            },
            Err(e) => Err(e),
        }
    }

    /// The cell in column `x` of row `y` of the current buffer, or `None`
    /// where the grid has no such position.
    pub fn get(&self, x: u32, y: u32) -> (cell: Option<Texel>)
        ensures
            cell == if x < self@.width && y < self@.height {
                Some(self@.current()[y * self@.width + x])
            } else {
                None
            },
    {
        proof {
            use_type_invariant(self);
        }
        if x < self.width && y < self.height {
            let cells: &Vec<Texel> = self.current();
            let count: usize = cells.len();
            proof {
                lemma_index_in_range(x as nat, y as nat, self.width as nat, self.height as nat);
                assert(count == self.width * self.height);
                assert(0 <= y * self.width) by (nonlinear_arith);
            }
            let index: usize = (y as usize) * (self.width as usize) + (x as usize);
            Some(cells[index])
        } else {
            None
        }
    }

    /// Draws the current buffer into a frame of `frame_width` by
    /// `frame_height` pixels, row by row, with nearest-neighbour sampling.
    /// The store is not changed.
    pub fn present(&self, frame_width: u32, frame_height: u32) -> (frame: Vec<Texel>)
        requires
            frame_width * frame_height <= usize::MAX,
        ensures
            frame@ == presented(self@, frame_width as nat, frame_height as nat),
    {
        proof {
            use_type_invariant(self);
        }
        let count: usize = cell_count(frame_width, frame_height);
        let cells: &Vec<Texel> = self.current();
        let cell_total: usize = cells.len();
        let width: u32 = self.width;
        let height: u32 = self.height;
        let mut frame: Vec<Texel> = Vec::new();
        let mut i: usize = 0;
        while i < count
            invariant
                i <= count,
                count == frame_width * frame_height,
                cell_total == cells@.len(),
                cells@ == self@.current(),
                cell_total == width * height,
                width == self@.width,
                height == self@.height,
                width > 0,
                height > 0,
                frame@.len() == i,
                forall|j: int|
                    0 <= j < i ==> frame@[j] == presented(
                        self@,
                        frame_width as nat,
                        frame_height as nat,
                    )[j],
            decreases count - i,
        {
            proof {
                assert(frame_width > 0) by (nonlinear_arith)
                    requires
                        i < frame_width * frame_height,
                ;
                lemma_position_in_range(i as nat, frame_width as nat, frame_height as nat);
            }
            let px: u32 = (i % (frame_width as usize)) as u32;
            let py: u32 = (i / (frame_width as usize)) as u32;
            let x: u32 = nearest_cell(width, frame_width, px);
            let y: u32 = nearest_cell(height, frame_height, py);
            proof {
                lemma_index_in_range(x as nat, y as nat, width as nat, height as nat);
                assert(0 <= y * width) by (nonlinear_arith);
            }
            let index: usize = (y as usize) * (width as usize) + (x as usize);
            frame.push(cells[index]);
            i = i + 1;
        }
        frame
    }

    /// Makes `cells` the buffer that is not current. Only the passes of this
    /// crate write a buffer.
    pub(crate) fn write_other(&mut self, cells: Vec<Texel>)
        requires
            cells@.len() == old(self)@.width * old(self)@.height,
        ensures
            final(self)@ == old(self)@.with_other(cells@),
            final(self)@.wf(),
    {
        proof {
            use_type_invariant(&*self);
        }
        self.bind_groups.set_other(cells);
    }
}

/// The number of cells of a grid of `width` by `height`.
fn cell_count(width: u32, height: u32) -> (count: usize)
    requires
        width * height <= usize::MAX,
    ensures
        count == width * height,
{
    proof {
        lemma_product_fits(width as nat, height as nat);
    }
    let count: u64 = (width as u64) * (height as u64);
    count as usize
}

/// The column and the row of an index of a grid lie inside the grid.
pub proof fn lemma_position_in_range(i: nat, width: nat, height: nat)
    requires
        width > 0,
        i < width * height,
    ensures
        i % width < width,
        i / width < height,
{
    vstd::arithmetic::div_mod::lemma_fundamental_div_mod(i as int, width as int);
    assert(i / width < height) by (nonlinear_arith)
        requires
            width > 0,
            i < width * height,
            i == width * (i / width) + i % width,
            0 <= i % width,
    ;
}

/// The cell nearest to the centre of a pixel, along one axis.
fn nearest_cell(extent: u32, frame_extent: u32, pixel: u32) -> (cell: u32)
    requires
        pixel < frame_extent,
        extent > 0,
    ensures
        cell == nearest(extent as nat, frame_extent as nat, pixel as int),
        cell < extent,
{
    let centre: u64 = 2 * (pixel as u64) + 1;
    let span: u64 = 2 * (frame_extent as u64);
    assert(centre * extent <= 0x1_ffff_ffff * 0xffff_ffff) by (nonlinear_arith)
        requires
            0 <= centre <= 0x1_ffff_ffff,
            0 <= extent <= 0xffff_ffff,
    ;
    let scaled: u128 = (centre as u128) * (extent as u128);
    let cell: u128 = scaled / (span as u128);
    assert(cell < extent) by (nonlinear_arith)
        requires
            cell == scaled / (span as u128),
            scaled == centre * extent,
            centre < span,
            span > 0,
            extent > 0,
    ;
    cell as u32
}

/// The product of two 32-bit numbers fits in 64 bits.
proof fn lemma_product_fits(a: nat, b: nat)
    requires
        a <= u32::MAX,
        b <= u32::MAX,
    ensures
        a * b <= u64::MAX,
{
    assert(a * b <= 0xffff_ffff * 0xffff_ffff) by (nonlinear_arith)
        requires
            a <= 0xffff_ffff,
            b <= 0xffff_ffff,
    ;
}

/// The index of a position of the grid lies inside its buffers.
pub proof fn lemma_index_in_range(x: nat, y: nat, width: nat, height: nat)
    requires
        x < width,
        y < height,
    ensures
        y * width + x < width * height,
        (y * width + x) / width == y,
        (y * width + x) % width == x,
{
    assert(y * width + x < width * height) by (nonlinear_arith)
        requires
            x < width,
            y < height,
    ;
    vstd::arithmetic::div_mod::lemma_fundamental_div_mod_converse(
        (y * width + x) as int,
        width as int,
        y as int,
        x as int,
    );
}

/// A buffer of `count` random weights.
fn generate_random_data(count: usize) -> (data: Vec<Texel>)
    ensures
        data@.len() == count,
{
    let mut rng: ThreadRng = rand::thread_rng();
    let mut data: Vec<Texel> = Vec::new();
    let mut i: usize = 0;
    while i < count
        invariant
            i <= count,
            data@.len() == i,
        decreases count - i,
    {
        let weight: u8 = random_weight(&mut rng);
        data.push(Texel(weight));
        i = i + 1;
    }
    data
}

/// A buffer of `count` empty cells.
fn generate_empty_data(count: usize) -> (data: Vec<Texel>)
    ensures
        data@ == empty_cells(count as nat),
{
    let mut data: Vec<Texel> = Vec::new();
    let mut i: usize = 0;
    while i < count
        invariant
            i <= count,
            data@ == empty_cells(i as nat),
        decreases count - i,
    {
        data.push(Texel(EMPTY));
        i = i + 1;
    }
    data
}

/// `cell` is the cell nearest to the centre of `pixel` where the pixel's
/// centre lies between the cell's low edge and its high edge.
pub proof fn lemma_nearest_is(extent: nat, frame_extent: nat, pixel: nat, cell: nat)
    requires
        frame_extent > 0,
        cell * (2 * frame_extent) <= (2 * pixel + 1) * extent < (cell + 1) * (2 * frame_extent),
    ensures
        nearest(extent, frame_extent, pixel as int) == cell,
{
    assert((cell + 1) * (2 * frame_extent) == cell * (2 * frame_extent) + 2 * frame_extent)
        by (nonlinear_arith);
    vstd::arithmetic::div_mod::lemma_fundamental_div_mod_converse(
        ((2 * pixel + 1) * extent) as int,
        (2 * frame_extent) as int,
        cell as int,
        (2 * pixel + 1) * extent - cell * (2 * frame_extent),
    );
}

/// The frame, pixel by pixel: the pixel in column `px` of row `py` shows
/// the cell nearest to its centre.
pub proof fn lemma_presented_pixel(grids: Grids, frame_width: nat, frame_height: nat, px: nat, py: nat)
    requires
        px < frame_width,
        py < frame_height,
    ensures
        py * frame_width + px < presented(grids, frame_width, frame_height).len(),
        presented(grids, frame_width, frame_height)[(py * frame_width + px) as int]
            == grids.current()[nearest(
            grids.height,
            frame_height,
            py as int,
        ) * grids.width + nearest(grids.width, frame_width, px as int)],
{
    lemma_index_in_range(px, py, frame_width, frame_height);
}

} // verus!
