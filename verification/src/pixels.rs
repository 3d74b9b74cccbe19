//! The pixel-buffer view: a flat row-major buffer of 32-bit packed color
//! values, mutated by applying a per-pixel operation to every slot in
//! parallel. Index `n` of a buffer of row width `w` is the pixel at row
//! `n / w`, column `n % w`.

use vstd::prelude::*;

use rayon::prelude::{IndexedParallelIterator, IntoParallelRefMutIterator, ParallelIterator};

verus! {

/// One pixel-mutation rule: from a pixel's row, column and current packed
/// color value to its new value. An implementation only reads its arguments,
/// so it is safe to apply to disjoint pixel slots from concurrent workers.
pub trait PixelOp: Sized {
    /// What `apply` returns for a pixel at the given coordinate holding the
    /// given value.
    spec fn op_spec(&self, row: int, col: int, cur: u32) -> u32;

    /// Computes the new value of the pixel at `(row, col)` whose current
    /// value is `cur`.
    fn apply(&self, row: usize, col: usize, cur: u32) -> (new: u32)
        ensures
            new == self.op_spec(row as int, col as int, cur),
    ;
}

/// The operation that leaves every pixel unchanged.
pub struct IdentityOp;

impl PixelOp for IdentityOp {
    open spec fn op_spec(&self, row: int, col: int, cur: u32) -> u32 {
        cur
    }

    fn apply(&self, row: usize, col: usize, cur: u32) -> (new: u32) {
        cur
    }
}

/// `cur + 1`, wrapping around at the top of the 32-bit range.
pub open spec fn inc_pixel(cur: u32) -> u32 {
    if cur == u32::MAX {
        0
    } else {
        (cur + 1) as u32
    }
}

/// `cur - 1`, wrapping around at the bottom of the 32-bit range.
pub open spec fn dec_pixel(cur: u32) -> u32 {
    if cur == 0 {
        u32::MAX
    } else {
        (cur - 1) as u32
    }
}

/// The operation that increments every pixel value by one, wrapping.
pub struct IncrementOp;

impl PixelOp for IncrementOp {
    open spec fn op_spec(&self, row: int, col: int, cur: u32) -> u32 {
        inc_pixel(cur)
    }

    fn apply(&self, row: usize, col: usize, cur: u32) -> (new: u32) {
        cur.wrapping_add(1)
    }
}

/// The operation that decrements every pixel value by one, wrapping.
pub struct DecrementOp;

impl PixelOp for DecrementOp {
    open spec fn op_spec(&self, row: int, col: int, cur: u32) -> u32 {
        dec_pixel(cur)
    }

    fn apply(&self, row: usize, col: usize, cur: u32) -> (new: u32) {
        cur.wrapping_sub(1)
    }
}

/// The operation that sets every pixel to one fixed packed color.
pub struct FillOp {
    pub color: u32,
}

impl PixelOp for FillOp {
    open spec fn op_spec(&self, row: int, col: int, cur: u32) -> u32 {
        self.color
    }

    fn apply(&self, row: usize, col: usize, cur: u32) -> (new: u32) {
        self.color
    }
}

/// The packed value [`CoordPatternOp`] writes: the row (modulo the half-word
/// range) in the high half-word and the column in the low half-word.
pub open spec fn coord_pattern(row: int, col: int) -> u32 {
    ((row % 0x10000) * 0x10000 + (col % 0x10000)) as u32
}

/// The operation that overwrites each pixel with a packing of its own
/// row-major coordinate: a diagnostic pattern that makes the coordinate
/// mapping of a pass visible in the buffer itself.
pub struct CoordPatternOp;

impl PixelOp for CoordPatternOp {
    open spec fn op_spec(&self, row: int, col: int, cur: u32) -> u32 {
        coord_pattern(row, col)
    }

    fn apply(&self, row: usize, col: usize, cur: u32) -> (new: u32) {
        let r: usize = row % 0x10000;
        let c: usize = col % 0x10000;
        let packed: usize = r * 0x10000 + c;
        proof {
            assert(packed <= 0xffff * 0x10000 + 0xffff);
        }
        packed as u32
    }
}

/// Maps a flat buffer index to its row-major coordinate: index `n` in a
/// buffer of row width `width` is the pixel at row `n / width`, column
/// `n % width`.
pub fn pixel_coord(n: usize, width: usize) -> (coord: (usize, usize))
    requires
        width > 0,
    ensures
        coord.0 == n as int / width as int,
        coord.1 == n as int % width as int,
{
    (n / width, n % width)
}

/// Relies on rayon's indexed parallel iteration over a mutable slice:
/// `par_iter_mut().enumerate().for_each(f)` gives each worker exclusive
/// mutable access to exactly one element together with that element's index,
/// visits every index exactly once, and returns only when all workers are
/// done. Each slot's new value is computed from its own index and old value
/// alone, so the outcome is independent of the scheduling order.
#[verifier::external_body]
fn par_apply<Op: PixelOp + Sync>(pixels: &mut Vec<u32>, width: usize, op: &Op)
    requires
        width > 0,
    ensures
        final(pixels)@.len() == old(pixels)@.len(),
        forall|n: int|
            0 <= n < old(pixels)@.len() ==> final(pixels)@[n] == op.op_spec(
                n / width as int,
                n % width as int,
                old(pixels)@[n],
            ),
{
    pixels.par_iter_mut().enumerate().for_each(|(n, p)| {
        let coord = pixel_coord(n, width);
        *p = op.apply(coord.0, coord.1, *p);
    });
}

/// Applies `op` to every pixel of a row-major buffer of row width `width`,
/// in place. Every index is visited exactly once; the visitation order is
/// unspecified, and the result does not depend on it, since each slot's new
/// value is a function of its own coordinate and old value alone.
pub fn mutate<Op: PixelOp + Sync>(pixels: &mut Vec<u32>, width: usize, op: &Op)
    requires
        width > 0,
    ensures
        final(pixels)@.len() == old(pixels)@.len(),
        forall|n: int|
            0 <= n < old(pixels)@.len() ==> final(pixels)@[n] == op.op_spec(
                n / width as int,
                n % width as int,
                old(pixels)@[n],
            ),
{
    par_apply(pixels, width, op);
}

/// Law: a mutation pass whose operation returns every pixel unchanged leaves
/// the buffer identical. The premises are exactly what `mutate` ensures for
/// an [`IdentityOp`] pass from `before` to `after`.
pub proof fn lemma_identity_pass_preserves(before: Seq<u32>, after: Seq<u32>, width: int, op: IdentityOp)
    requires
        after.len() == before.len(),
        forall|n: int|
            0 <= n < before.len() ==> after[n] == op.op_spec(n / width, n % width, before[n]),
    ensures
        after == before,
{
    assert(after =~= before);
}

/// Law: a mutation pass that increments every pixel by one (wrapping),
/// followed by a pass that decrements every pixel by one (wrapping),
/// restores the original buffer. The premises are exactly what `mutate`
/// ensures for an [`IncrementOp`] pass from `first` to `second` and a
/// [`DecrementOp`] pass from `second` to `third`.
pub proof fn lemma_increment_then_decrement_restores(
    first: Seq<u32>,
    second: Seq<u32>,
    third: Seq<u32>,
    width: int,
    inc: IncrementOp,
    dec: DecrementOp,
)
    requires
        second.len() == first.len(),
        third.len() == second.len(),
        forall|n: int|
            0 <= n < first.len() ==> second[n] == inc.op_spec(n / width, n % width, first[n]),
        forall|n: int|
            0 <= n < second.len() ==> third[n] == dec.op_spec(n / width, n % width, second[n]),
    ensures
        third == first,
{
    assert forall|n: int| 0 <= n < first.len() implies third[n] == first[n] by {
        assert(second[n] == inc_pixel(first[n]));
        assert(third[n] == dec_pixel(second[n]));
    }
    assert(third =~= first);
}

} // verus!
