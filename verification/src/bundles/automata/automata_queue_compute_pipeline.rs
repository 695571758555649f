//! The edit queue: a fixed number of slots for pending brush strokes, and
//! the pass that paints them onto the grid.
//!
//! A batch of edits overwrites the whole queue: the batch comes first and
//! every slot behind it is cleared. A batch that is longer than the queue
//! is rejected as a whole; it is never cut short. The pass reads the
//! current buffer as the base layer and writes the painted grid to the
//! other buffer; the caller then exchanges the two.

use crate::packages::automata_package::{
    lemma_position_in_range,
    AutomataPackage,
    Texel,
    EMPTY,
    FULL,
};
use crate::utility::errors::AutomataError;
use vstd::prelude::*;

verus! {

/// The number of slots of the queue.
pub const CAPACITY: usize = 100;

/// The column that marks an edit outside the grid's world.
pub const SENTINEL: i32 = 0x7fff_ffff;

/// The brush that fills the square of side `2 * radius + 1`.
pub const BRUSH_SQUARE: i32 = 1;

/// The brush that fills the disc of the given radius.
pub const BRUSH_DISC: i32 = 2;

/// The brush that fills the diamond of the given radius.
pub const BRUSH_DIAMOND: i32 = 3;

/// The brush that fills the row and the column through the centre, out to
/// the given radius.
pub const BRUSH_CROSS: i32 = 4;

/// One pending edit: a brush stroke centred on the cell in column `x` of
/// row `y`.
///
/// The sign of `brush_kind` says what the stroke does (positive fills,
/// negative erases), its magnitude selects the shape. An entry whose `x` is
/// `SENTINEL`, or whose `brush_kind` is 0, does nothing.
#[derive(Clone, Copy, Debug, PartialEq, Eq, Structural)]
pub struct EditEntry {
    pub x: i32,
    pub y: i32,
    pub brush_kind: i32,
    pub brush_radius: i32,
}

/// The distance between two coordinates.
pub open spec fn distance(a: int, b: int) -> int {
    if a <= b {
        b - a
    } else {
        a - b
    }
}

impl EditEntry {
    /// The entry of an unused slot: all zero.
    pub open spec fn unused() -> EditEntry {
        EditEntry { x: 0, y: 0, brush_kind: 0, brush_radius: 0 }
    }

    /// Whether the entry does nothing, wherever it lies.
    pub open spec fn noop(self) -> bool {
        self.x == SENTINEL || self.brush_kind == 0
    }

    /// The shape that the entry's brush has: the magnitude of its kind.
    pub open spec fn shape(self) -> int {
        if self.brush_kind < 0 {
            -self.brush_kind
        } else {
            self.brush_kind as int
        }
    }

    /// Whether the brush, taken by its shape and radius alone, reaches the
    /// cell in column `x` of row `y`.
    pub open spec fn covers(self, x: int, y: int) -> bool {
        let dx = distance(self.x as int, x);
        let dy = distance(self.y as int, y);
        let r = self.brush_radius as int;
        if r < 0 {
            false
        } else if self.shape() == BRUSH_SQUARE {
            dx <= r && dy <= r
        } else if self.shape() == BRUSH_DISC {
            dx * dx + dy * dy <= r * r
        } else if self.shape() == BRUSH_DIAMOND {
            dx + dy <= r
        } else if self.shape() == BRUSH_CROSS {
            (dx == 0 && dy <= r) || (dy == 0 && dx <= r)
        } else {
            false
        }
    }

    /// Whether the entry changes the cell in column `x` of row `y`.
    pub open spec fn paints(self, x: int, y: int) -> bool {
        !self.noop() && self.covers(x, y)
    }

    /// The weight that the entry gives to the cells it paints.
    pub open spec fn stamp(self) -> Texel {
        if self.brush_kind > 0 {
            Texel(FULL)
        } else {
            Texel(EMPTY)
        }
    }

    /// The entry of an unused slot.
    pub fn empty() -> (e: EditEntry)
        ensures
            e == EditEntry::unused(),
    {
        EditEntry { x: 0, y: 0, brush_kind: 0, brush_radius: 0 }
    }

    /// Whether the entry does nothing, wherever it lies.
    pub fn is_noop(&self) -> (r: bool)
        ensures
            r == self.noop(),
    {
        self.x == SENTINEL || self.brush_kind == 0
    }

    /// Whether the entry changes the cell in column `x` of row `y`.
    pub fn paints_cell(&self, x: u32, y: u32) -> (r: bool)
        ensures
            r == self.paints(x as int, y as int),
    {
        if self.is_noop() || self.brush_radius < 0 {
            return false;
        }
        let r: i128 = self.brush_radius as i128;
        let dx: i128 = if (self.x as i128) <= (x as i128) {
            (x as i128) - (self.x as i128)
        } else {
            (self.x as i128) - (x as i128)
        };
        let dy: i128 = if (self.y as i128) <= (y as i128) {
            (y as i128) - (self.y as i128)
        } else {
            (self.y as i128) - (y as i128)
        };
        let shape: i128 = if self.brush_kind < 0 {
            -(self.brush_kind as i128)
        } else {
            self.brush_kind as i128
        };
        if shape == 1 {
            dx <= r && dy <= r
        } else if shape == 2 {
            proof {
                lemma_square_fits(dx as int);
                lemma_square_fits(dy as int);
                lemma_square_fits(r as int);
            }
            dx * dx + dy * dy <= r * r
        } else if shape == 3 {
            dx + dy <= r
        } else if shape == 4 {
            (dx == 0 && dy <= r) || (dy == 0 && dx <= r)
        } else {
            false
        }
    }

    /// The weight that the entry gives to the cells it paints.
    pub fn stamp_texel(&self) -> (t: Texel)
        ensures
            t == self.stamp(),
    {
        if self.brush_kind > 0 {
            Texel(FULL)
        } else {
            Texel(EMPTY)
        }
    }
}

/// The square of a number of at most 34 bits fits in 70.
proof fn lemma_square_fits(d: int)
    requires
        0 <= d <= 0x3_ffff_ffff,
    ensures
        0 <= d * d <= 0x3f_ffff_ffff_ffff_ffff,
{
    assert(0 <= d * d <= 0x3_ffff_ffff * 0x3_ffff_ffff) by (nonlinear_arith)
        requires
            0 <= d <= 0x3_ffff_ffff,
    ;
}

/// What the queue holds after it has taken `batch`: the batch, then unused
/// slots up to the capacity.
pub open spec fn batch_image(batch: Seq<EditEntry>) -> Seq<EditEntry> {
    Seq::new(
        CAPACITY as nat,
        |i: int|
            if i < batch.len() {
                batch[i]
            } else {
                EditEntry::unused()
            },
    )
}

/// What the queue holds when it is made for a grid of `width` by `height`:
/// a stroke on the grid's centre, one on its first cell, and unused slots.
pub open spec fn initial_image(width: nat, height: nat) -> Seq<EditEntry> {
    batch_image(
        seq![
            EditEntry { x: (width / 2) as i32, y: (height / 2) as i32, brush_kind: 1, brush_radius: 20 },
            EditEntry { x: 0, y: 0, brush_kind: 1, brush_radius: 20 },
        ],
    )
}

/// Whether any slot holds an entry that is not a no-op.
pub open spec fn has_edits(slots: Seq<EditEntry>) -> bool {
    exists|k: int| 0 <= k < slots.len() && !(#[trigger] slots[k]).noop()
}

/// The weight of the cell in column `x` of row `y` once the strokes in
/// `slots` have been painted over `base`, in the order of the slots: where
/// strokes overlap, the later one stands.
pub open spec fn painted(slots: Seq<EditEntry>, base: Texel, x: int, y: int) -> Texel
    decreases slots.len(),
{
    if slots.len() == 0 {
        base
    } else if slots.last().paints(x, y) {
        slots.last().stamp()
    } else {
        painted(slots.drop_last(), base, x, y)
    }
}

/// The grid `cells`, of the given width, with the strokes in `slots`
/// painted on it.
pub open spec fn flushed(slots: Seq<EditEntry>, cells: Seq<Texel>, width: nat) -> Seq<Texel> {
    Seq::new(
        cells.len(),
        |i: int| painted(slots, cells[i], i % (width as int), i / (width as int)),
    )
}

/// The number of bytes that one slot takes in memory: four 32-bit words.
pub const ENTRY_BYTES: usize = 16;

/// The `k`-th of the four words of an entry: column, row, kind, radius.
pub open spec fn entry_word(entry: EditEntry, k: int) -> i32 {
    if k == 0 {
        entry.x
    } else if k == 1 {
        entry.y
    } else if k == 2 {
        entry.brush_kind
    } else {
        entry.brush_radius
    }
}

/// A 32-bit word read as an unsigned number, in two's complement.
pub open spec fn unsigned(word: i32) -> int {
    if word < 0 {
        word + 0x1_0000_0000
    } else {
        word as int
    }
}

/// The `k`-th byte of an unsigned 32-bit word, counted from the low end.
pub open spec fn word_byte(word: int, k: int) -> int {
    if k == 0 {
        word % 0x100
    } else if k == 1 {
        (word / 0x100) % 0x100
    } else if k == 2 {
        (word / 0x1_0000) % 0x100
    } else {
        (word / 0x100_0000) % 0x100
    }
}

/// The byte at offset `i` of the slots as they lie in memory: slot after
/// slot, word after word, each word with its low byte first where
/// `little_endian` holds and with its high byte first where it does not.
pub open spec fn memory_byte(slots: Seq<EditEntry>, i: int, little_endian: bool) -> int {
    let word = unsigned(entry_word(slots[i / 16], (i % 16) / 4));
    if little_endian {
        word_byte(word, i % 4)
    } else {
        word_byte(word, 3 - i % 4)
    }
}

/// Whether `bytes` are the slots as they lie in memory.
pub open spec fn memory_image(bytes: Seq<u8>, slots: Seq<EditEntry>, little_endian: bool) -> bool {
    &&& bytes.len() == 16 * slots.len()
    &&& forall|i: int| 0 <= i < bytes.len() ==> bytes[i] == memory_byte(slots, i, little_endian)
}

/// The bytes of the slots as they lie in this machine's memory, by
/// `bytemuck::cast_slice` from records of four `i32` to `u8`.
///
/// The cast reinterprets memory, so the bytes are those of each word in the
/// machine's byte order: low byte first on some machines, high byte first
/// on the others. With bytes as the target the cast has no input on which
/// it fails.
#[verifier::external_body]
fn cast_slots(slots: &Vec<EditEntry>) -> (bytes: Vec<u8>)
    ensures
        memory_image(bytes@, slots@, true) || memory_image(bytes@, slots@, false),
{
    let words: Vec<[i32; 4]> =
        slots.iter().map(|e| [e.x, e.y, e.brush_kind, e.brush_radius]).collect();
    bytemuck::cast_slice::<[i32; 4], u8>(&words).to_vec()
}

/// The queue of pending edits.
pub struct QueueComputePipeline {
    input_data: Vec<EditEntry>,
}

impl View for QueueComputePipeline {
    type V = Seq<EditEntry>;

    closed spec fn view(&self) -> Seq<EditEntry> {
        self.input_data@
    }
}

impl QueueComputePipeline {
    /// What holds of every queue: it has exactly `CAPACITY` slots.
    #[verifier::type_invariant]
    pub open spec fn inv(&self) -> bool {
        self@.len() == CAPACITY
    }

    /// A queue for the grid of `automata_package`. It starts with two
    /// strokes in place: see `initial_image`.
    pub fn new(automata_package: &AutomataPackage) -> (queue: Self)
        ensures
            queue@ == initial_image(automata_package@.width, automata_package@.height),
    {
        let middle_x: i32 = (automata_package.width() / 2) as i32;
        let middle_y: i32 = (automata_package.height() / 2) as i32;
        let mut batch: Vec<EditEntry> = Vec::new();
        batch.push(EditEntry { x: middle_x, y: middle_y, brush_kind: 1, brush_radius: 20 });
        batch.push(EditEntry { x: 0, y: 0, brush_kind: 1, brush_radius: 20 });
        let input_data: Vec<EditEntry> = fill_slots(&batch);
        assert(batch@ =~= seq![
            EditEntry {
                x: (automata_package@.width / 2) as i32,
                y: (automata_package@.height / 2) as i32,
                brush_kind: 1,
                brush_radius: 20,
            },
            EditEntry { x: 0, y: 0, brush_kind: 1, brush_radius: 20 },
        ]);
        Self { input_data }
    }

    /// The number of slots.
    pub fn capacity(&self) -> (n: usize)
        ensures
            n == CAPACITY,
    {
        CAPACITY
    }

    /// The entry in slot `index`, or `None` where the queue has no such slot.
    pub fn slot(&self, index: usize) -> (entry: Option<EditEntry>)
        ensures
            entry == if index < self@.len() {
                Some(self@[index as int])
            } else {
                None
            },
    {
        if index < self.input_data.len() {
            Some(self.input_data[index])
        } else {
            None
        }
    }

    /// Overwrites the whole queue with `data`: the entries of `data` come
    /// first, in their order, and every slot behind them is cleared.
    ///
    /// Fails with `CapacityExceeded` exactly when `data` holds more entries
    /// than the queue has slots; the queue is then left as it was.
    pub fn update_queue(&mut self, data: Vec<EditEntry>) -> (r: Result<(), AutomataError>)
        ensures
            r is Err <==> data@.len() > CAPACITY,
            r matches Err(e) ==> e == AutomataError::CapacityExceeded && *final(self) == *old(self),
            r is Ok ==> final(self)@ == batch_image(data@),
    {
        if data.len() > CAPACITY {
            return Err(AutomataError::CapacityExceeded);
        }
        self.input_data = fill_slots(&data);
        Ok(())
    }

    /// The queue as the bytes that a device buffer holds for it: every slot
    /// in its order, in this machine's byte order.
    pub fn buffer_contents(&self) -> (bytes: Vec<u8>)
        ensures
            bytes@.len() == ENTRY_BYTES * self@.len(),
            memory_image(bytes@, self@, true) || memory_image(bytes@, self@, false),
    {
        cast_slots(&self.input_data)
    }

    /// Whether any slot holds an entry that is not a no-op.
    pub fn has_pending_edits(&self) -> (r: bool)
        ensures
            r == has_edits(self@),
    {
        let mut k: usize = 0;
        while k < self.input_data.len()
            invariant
                k <= self.input_data@.len(),
                forall|j: int| 0 <= j < k ==> (#[trigger] self.input_data@[j]).noop(),
            decreases self.input_data@.len() - k,
        {
            if !self.input_data[k].is_noop() {
                return true;
            }
            k = k + 1;
        }
        false
    }

    /// The weight of the cell in column `x` of row `y` once the queue's
    /// strokes have been painted over `base`.
    pub fn paint_cell(&self, base: Texel, x: u32, y: u32) -> (t: Texel)
        ensures
            t == painted(self@, base, x as int, y as int),
    {
        let mut value: Texel = base;
        let mut k: usize = 0;
        while k < self.input_data.len()
            invariant
                k <= self.input_data@.len(),
                value == painted(self.input_data@.take(k as int), base, x as int, y as int),
            decreases self.input_data@.len() - k,
        {
            let entry: EditEntry = self.input_data[k];
            proof {
                assert(self.input_data@.take(k + 1).drop_last() =~= self.input_data@.take(
                    k as int,
                ));
            }
            if entry.paints_cell(x, y) {
                value = entry.stamp_texel();
            }
            k = k + 1;
        }
        assert(self.input_data@.take(k as int) =~= self.input_data@);
        value
    }

    /// Paints the queue's strokes onto the grid. The current buffer is read
    /// as the base layer and the painted grid is written to the other
    /// buffer; the roles are left as they are, and the caller exchanges them
    /// when the pass has written.
    ///
    /// Returns whether it wrote. A queue that holds only no-ops writes
    /// nothing, and both buffers stay as they were.
    pub fn compute_pass(&self, automata_package: &mut AutomataPackage) -> (wrote: bool)
        ensures
            wrote == has_edits(self@),
            !wrote ==> *final(automata_package) == *old(automata_package),
            wrote ==> final(automata_package)@ == old(automata_package)@.with_other(
                flushed(self@, old(automata_package)@.current(), old(automata_package)@.width),
            ),
    {
        proof {
            use_type_invariant(&*automata_package);
        }
        if !self.has_pending_edits() {
            return false;
        }
        let width: usize = automata_package.width() as usize;
        let rows: u32 = automata_package.height();
        let ghost height: nat = rows as nat;
        let current: &Vec<Texel> = automata_package.current();
        let count: usize = current.len();
        let mut cells: Vec<Texel> = Vec::new();
        let mut i: usize = 0;
        while i < count
            invariant
                i <= count,
                width > 0,
                width <= u32::MAX,
                height <= u32::MAX,
                count == width * height,
                count == current@.len(),
                cells@.len() == i,
                forall|j: int|
                    0 <= j < i ==> cells@[j] == painted(
                        self@,
                        current@[j],
                        j % (width as int),
                        j / (width as int),
                    ),
            decreases count - i,
        {
            proof {
                lemma_position_in_range(i as nat, width as nat, height);
            }
            let x: u32 = (i % width) as u32;
            let y: u32 = (i / width) as u32;
            let value: Texel = self.paint_cell(current[i], x, y);
            cells.push(value);
            i = i + 1;
        }
        assert(cells@ =~= flushed(self@, current@, width as nat));
        automata_package.write_other(cells);
        true
    }
}

/// The image of `batch` in a queue of `CAPACITY` slots.
fn fill_slots(batch: &Vec<EditEntry>) -> (slots: Vec<EditEntry>)
    requires
        batch@.len() <= CAPACITY,
    ensures
        slots@ == batch_image(batch@),
{
    let mut slots: Vec<EditEntry> = Vec::new();
    let mut i: usize = 0;
    while i < CAPACITY
        invariant
            i <= CAPACITY,
            slots@.len() == i,
            forall|j: int| 0 <= j < i ==> slots@[j] == batch_image(batch@)[j],
        decreases CAPACITY - i,
    {
        let entry: EditEntry = if i < batch.len() {
            batch[i]
        } else {
            EditEntry::empty()
        };
        slots.push(entry);
        i = i + 1;
    }
    slots
}

/// A queue that holds only no-ops paints nothing: every cell keeps the
/// weight it had.
pub proof fn lemma_noops_paint_nothing(slots: Seq<EditEntry>, base: Texel, x: int, y: int)
    requires
        !has_edits(slots),
    ensures
        painted(slots, base, x, y) == base,
    decreases slots.len(),
{
    if slots.len() > 0 {
        // The last slot does not paint, and the slots before it are no-ops too.
        lemma_noops_paint_nothing(slots.drop_last(), base, x, y);
    }
}

/// An entry that is a no-op is ignored wherever it stands in the queue:
/// the queue paints as it would without that entry.
pub proof fn lemma_noop_entry_is_ignored(slots: Seq<EditEntry>, k: int, base: Texel, x: int, y: int)
    requires
        0 <= k < slots.len(),
        slots[k].noop(),
    ensures
        painted(slots, base, x, y) == painted(slots.remove(k), base, x, y),
    decreases slots.len(),
{
    if k == slots.len() - 1 {
        // The entry is the last one: it does not paint, and the slots before
        // it are the queue without it.
        assert(slots.remove(k) =~= slots.drop_last());
    } else {
        // The last slot is the same with and without the entry. Where it
        // does not paint, the slots before it decide.
        assert(slots.remove(k).drop_last() =~= slots.drop_last().remove(k));
        if !slots.last().paints(x, y) {
            lemma_noop_entry_is_ignored(slots.drop_last(), k, base, x, y);
        }
    }
}

/// An entry on the sentinel column paints no cell, whatever its brush.
pub proof fn lemma_sentinel_paints_nothing(entry: EditEntry, x: int, y: int)
    requires
        entry.x == SENTINEL,
    ensures
        entry.noop(),
        !entry.paints(x, y),
{
}

/// Flushing a queue that holds only no-ops would leave the grid as it is;
/// the pass then does not write at all.
pub proof fn lemma_flush_without_edits(slots: Seq<EditEntry>, cells: Seq<Texel>, width: nat)
    requires
        !has_edits(slots),
    ensures
        flushed(slots, cells, width) == cells,
{
    assert forall|i: int| 0 <= i < cells.len() implies flushed(slots, cells, width)[i]
        == cells[i] by {
        lemma_noops_paint_nothing(slots, cells[i], i % (width as int), i / (width as int));
    }
}

/// A batch overwrites the queue; it is not appended. Whatever batch the
/// queue took before, once it has taken the empty batch every slot is
/// unused, so the queue holds no edit and paints nothing.
pub proof fn lemma_empty_batch_clears_queue(
    batch: Seq<EditEntry>,
    after_batch: Seq<EditEntry>,
    after_empty: Seq<EditEntry>,
)
    requires
        batch.len() <= CAPACITY,
        after_batch == batch_image(batch),
        after_empty == batch_image(Seq::empty()),
    ensures
        after_empty.len() == CAPACITY,
        forall|i: int| 0 <= i < CAPACITY ==> after_empty[i] == EditEntry::unused(),
        !has_edits(after_empty),
{
}

/// The bytes of a queue of unused slots are all zero, in either byte
/// order.
pub proof fn lemma_unused_slots_are_zero_bytes(
    bytes: Seq<u8>,
    slots: Seq<EditEntry>,
    little_endian: bool,
)
    requires
        memory_image(bytes, slots, little_endian),
        forall|k: int| 0 <= k < slots.len() ==> slots[k] == EditEntry::unused(),
    ensures
        bytes.len() == 16 * slots.len(),
        forall|i: int| 0 <= i < bytes.len() ==> bytes[i] == 0,
{
    assert forall|i: int| 0 <= i < bytes.len() implies bytes[i] == 0 by {
        // Byte `i` lies in slot `i / 16`, and all four words of that slot are 0.
        assert(slots[i / 16] == EditEntry::unused());
    }
}

/// The unused slots behind a batch paint nothing: the queue that has taken
/// `batch` paints as the batch alone does.
pub proof fn lemma_painted_batch(batch: Seq<EditEntry>, base: Texel, x: int, y: int)
    requires
        batch.len() <= CAPACITY,
    ensures
        painted(batch_image(batch), base, x, y) == painted(batch, base, x, y),
{
    lemma_painted_prefix(batch_image(batch), batch.len() as int, base, x, y);
    assert(batch_image(batch).take(batch.len() as int) =~= batch);
}

/// A queue whose slots from `n` on are no-ops paints as its first `n`
/// slots do.
pub proof fn lemma_painted_prefix(slots: Seq<EditEntry>, n: int, base: Texel, x: int, y: int)
    requires
        0 <= n <= slots.len(),
        forall|k: int| n <= k < slots.len() ==> (#[trigger] slots[k]).noop(),
    ensures
        painted(slots, base, x, y) == painted(slots.take(n), base, x, y),
    decreases slots.len() - n,
{
    if n == slots.len() {
        assert(slots.take(n) =~= slots);
    } else {
        // The last slot is a no-op, and the slots before it have the same
        // first `n` slots.
        assert(slots.drop_last().take(n) =~= slots.take(n));
        lemma_painted_prefix(slots.drop_last(), n, base, x, y);
    }
}

/// The flushed grid, cell by cell: the cell in column `x` of row `y` is
/// what the queue paints over the cell that was there.
pub proof fn lemma_flushed_cell(
    slots: Seq<EditEntry>,
    cells: Seq<Texel>,
    width: nat,
    height: nat,
    x: nat,
    y: nat,
)
    requires
        cells.len() == width * height,
        x < width,
        y < height,
    ensures
        y * width + x < cells.len(),
        flushed(slots, cells, width)[(y * width + x) as int] == painted(
            slots,
            cells[(y * width + x) as int],
            x as int,
            y as int,
        ),
{
    crate::packages::automata_package::lemma_index_in_range(x, y, width, height);
}

/// Painting twice is painting once: a cell that the queue has painted is
/// not changed by painting it again.
pub proof fn lemma_painting_is_idempotent(slots: Seq<EditEntry>, base: Texel, x: int, y: int)
    ensures
        painted(slots, painted(slots, base, x, y), x, y) == painted(slots, base, x, y),
{
    lemma_painted_over(slots, slots, base, x, y);
}

/// What `slots` paint over a cell that `earlier` strokes have painted is
/// what `slots` paint over the cell itself, wherever one of `slots` reaches
/// it; where none does, the earlier strokes stand.
pub proof fn lemma_painted_over(
    slots: Seq<EditEntry>,
    earlier: Seq<EditEntry>,
    base: Texel,
    x: int,
    y: int,
)
    ensures
        painted(slots, painted(earlier, base, x, y), x, y) == if exists|k: int|
            0 <= k < slots.len() && (#[trigger] slots[k]).paints(x, y) {
            painted(slots, base, x, y)
        } else {
            painted(earlier, base, x, y)
        },
    decreases slots.len(),
{
    if slots.len() > 0 {
        let rest = slots.drop_last();
        lemma_painted_over(rest, earlier, base, x, y);
        if slots.last().paints(x, y) {
            assert(slots[slots.len() - 1].paints(x, y));
        } else {
            assert forall|k: int| 0 <= k < slots.len() && (#[trigger] slots[k]).paints(x, y) implies 0
                <= k < rest.len() && rest[k].paints(x, y) by {
                assert(rest[k] == slots[k]);
            }
            assert forall|k: int| 0 <= k < rest.len() && (#[trigger] rest[k]).paints(x, y) implies 0
                <= k < slots.len() && slots[k].paints(x, y) by {
                assert(rest[k] == slots[k]);
            }
        }
    }
}

} // verus!
