//! Square regions of an RGBA canvas and the copy of such regions from a
//! source frame.
//!
//! Buffers are laid out row by row, four bytes per pixel, `width` pixels per
//! row. A byte belongs to a region when the pixel it is part of does.
use vstd::arithmetic::div_mod::{lemma_fundamental_div_mod, lemma_fundamental_div_mod_converse};
use vstd::prelude::*;

verus! {

/// Bytes per pixel of every frame and canvas (red, green, blue, alpha).
pub const BYTES_PER_PIXEL: usize = 4;

/// A square of `size` by `size` pixels whose top-left pixel is at
/// column `x`, row `y`.
#[derive(Clone, Copy, Debug, PartialEq, Eq, Structural)]
pub struct Region {
    pub x: usize,
    pub y: usize,
    pub size: usize,
}

/// The byte length of a frame of `width` by `height` pixels.
pub open spec fn frame_len(width: nat, height: nat) -> nat {
    width * height * 4
}

/// The pixel column of byte `i`.
pub open spec fn column_of(width: nat, i: int) -> int {
    (i / 4) % (width as int)
}

/// The pixel row of byte `i`.
pub open spec fn row_of(width: nat, i: int) -> int {
    (i / 4) / (width as int)
}

/// Whether `r` lies wholly inside a canvas of `width` by `height` pixels.
pub open spec fn fits(width: nat, height: nat, r: Region) -> bool {
    r.x + r.size <= width && r.y + r.size <= height
}

/// Whether byte `i` belongs to a pixel of `r`.
pub open spec fn in_region(width: nat, r: Region, i: int) -> bool {
    &&& r.x <= column_of(width, i) < r.x + r.size
    &&& r.y <= row_of(width, i) < r.y + r.size
}

/// Whether byte `i` belongs to one of the `regions` that fit the canvas.
pub open spec fn covered(width: nat, height: nat, regions: Seq<Region>, i: int) -> bool
    decreases regions.len(),
{
    if regions.len() == 0 {
        false
    } else {
        ||| covered(width, height, regions.drop_last(), i)
        ||| (fits(width, height, regions.last()) && in_region(width, regions.last(), i))
    }
}

/// The canvas after the `regions` that fit are copied into it from `source`:
/// covered bytes come from the source, every other byte stays as it was.
/// Squares copy from one source, so their order does not matter.
pub open spec fn patched(
    width: nat,
    height: nat,
    canvas: Seq<u8>,
    source: Seq<u8>,
    regions: Seq<Region>,
) -> Seq<u8> {
    Seq::new(
        canvas.len(),
        |i: int|
            if covered(width, height, regions, i) {
                source[i]
            } else {
                canvas[i]
            },
    )
}

/// The bytes of row `row` of a square at column `x` of width `s` are exactly
/// those from `(row * width + x) * 4` up to `(row * width + x + s) * 4`.
proof fn lemma_row_span(width: int, x: int, s: int, row: int, i: int)
    requires
        width > 0,
        0 <= x,
        0 <= s,
        x + s <= width,
        0 <= row,
        0 <= i,
    ensures
        ((row * width + x) * 4 <= i < (row * width + x + s) * 4) <==> ((i / 4) / width == row && x
            <= (i / 4) % width < x + s),
{
    let p = i / 4;
    assert((row * width + x) * 4 <= i <==> row * width + x <= p);
    assert(i < (row * width + x + s) * 4 <==> p < row * width + x + s);
    lemma_fundamental_div_mod(p, width);
    assert(width * (p / width) == (p / width) * width) by (nonlinear_arith);
    if row * width + x <= p < row * width + x + s {
        lemma_fundamental_div_mod_converse(p, width, row, p - row * width);
    }
}

/// A row of a fitting square ends inside the canvas.
proof fn lemma_row_fits(width: int, height: int, x: int, s: int, row: int)
    requires
        0 <= x,
        0 <= s,
        x + s <= width,
        0 <= row < height,
    ensures
        0 <= row * width,
        (row * width + x + s) * 4 <= width * height * 4,
{
    assert(0 <= row * width) by (nonlinear_arith)
        requires
            0 <= row,
            0 <= width,
    ;
    assert(row * width + width <= height * width) by (nonlinear_arith)
        requires
            row + 1 <= height,
            0 <= width,
    ;
    assert(height * width == width * height) by (nonlinear_arith);
}

/// Copies the pixels of `r` from `source` into `canvas`.
fn copy_square(canvas: &mut Vec<u8>, source: &[u8], width: usize, height: usize, r: Region)
    requires
        old(canvas).len() == frame_len(width as nat, height as nat),
        source.len() == old(canvas).len(),
        fits(width as nat, height as nat, r),
    ensures
        final(canvas)@ == Seq::new(
            old(canvas)@.len(),
            |i: int|
                if in_region(width as nat, r, i) {
                    source@[i]
                } else {
                    old(canvas)@[i]
                },
        ),
{
    let ghost before = canvas@;
    let n = canvas.len();
    let ghost len = n as int;
    let end_row = r.y + r.size;
    let mut row: usize = r.y;
    while row < end_row
        invariant
            r.y <= row <= end_row,
            end_row == r.y + r.size,
            fits(width as nat, height as nat, r),
            len == frame_len(width as nat, height as nat),
            len <= usize::MAX,
            before.len() == len,
            source@.len() == len,
            canvas@.len() == len,
            forall|i: int|
                0 <= i < len ==> #[trigger] canvas@[i] == if in_region(width as nat, r, i)
                    && row_of(width as nat, i) < row {
                    source@[i]
                } else {
                    before[i]
                },
        decreases end_row - row,
    {
        proof {
            lemma_row_fits(width as int, height as int, r.x as int, r.size as int, row as int);
        }
        let start = (row * width + r.x) * BYTES_PER_PIXEL;
        let stop = start + r.size * BYTES_PER_PIXEL;
        let mut j: usize = start;
        while j < stop
            invariant
                start <= j <= stop,
                stop <= len,
                before.len() == len,
                source@.len() == len,
                canvas@.len() == len,
                forall|i: int|
                    0 <= i < len ==> #[trigger] canvas@[i] == if (in_region(width as nat, r, i)
                        && row_of(width as nat, i) < row) || (start <= i < j) {
                        source@[i]
                    } else {
                        before[i]
                    },
            decreases stop - j,
        {
            canvas.set(j, source[j]);
            j = j + 1;
        }
        assert forall|i: int| 0 <= i < len implies #[trigger] canvas@[i] == if in_region(
            width as nat,
            r,
            i,
        ) && row_of(width as nat, i) < row + 1 {
            source@[i]
        } else {
            before[i]
        } by {
            lemma_row_span(width as int, r.x as int, r.size as int, row as int, i);
        }
        row = row + 1;
    }
    assert(canvas@ =~= Seq::new(
        before.len(),
        |i: int|
            if in_region(width as nat, r, i) {
                source@[i]
            } else {
                before[i]
            },
    ));
}

/// Copies every region of `regions` that fits the canvas from `source` into
/// `canvas`, in order; a region that does not fit is skipped.
pub(crate) fn copy_regions(
    canvas: &mut Vec<u8>,
    source: &[u8],
    width: usize,
    height: usize,
    regions: &[Region],
)
    requires
        old(canvas).len() == frame_len(width as nat, height as nat),
        source.len() == old(canvas).len(),
    ensures
        final(canvas)@ == patched(width as nat, height as nat, old(canvas)@, source@, regions@),
{
    let ghost before = canvas@;
    let ghost len = before.len() as int;
    let mut k: usize = 0;
    while k < regions.len()
        invariant
            0 <= k <= regions@.len(),
            len == frame_len(width as nat, height as nat),
            before.len() == len,
            source@.len() == len,
            canvas@.len() == len,
            forall|i: int|
                0 <= i < len ==> #[trigger] canvas@[i] == if covered(
                    width as nat,
                    height as nat,
                    regions@.take(k as int),
                    i,
                ) {
                    source@[i]
                } else {
                    before[i]
                },
        decreases regions@.len() - k,
    {
        let r = regions[k];
        let fit = r.x <= width && r.size <= width - r.x && r.y <= height && r.size <= height - r.y;
        if fit {
            copy_square(canvas, source, width, height, r);
        }
        proof {
            let done = regions@.take(k as int);
            let next = regions@.take(k + 1);
            assert(next.drop_last() =~= done);
            assert(next.last() == r);
            assert forall|i: int| 0 <= i < len implies #[trigger] canvas@[i] == if covered(
                width as nat,
                height as nat,
                next,
                i,
            ) {
                source@[i]
            } else {
                before[i]
            } by {
                assert(covered(width as nat, height as nat, next, i) == (covered(
                    width as nat,
                    height as nat,
                    done,
                    i,
                ) || (fit && in_region(width as nat, r, i))));
            }
        }
        k = k + 1;
    }
    assert(regions@.take(regions@.len() as int) =~= regions@);
    assert(canvas@ =~= patched(width as nat, height as nat, before, source@, regions@));
}

/// A byte in a fitting region of `regions` is covered by them.
proof fn lemma_in_some_region_covered(width: nat, height: nat, regions: Seq<Region>, k: int, i: int)
    requires
        0 <= k < regions.len(),
        fits(width, height, regions[k]),
        in_region(width, regions[k], i),
    ensures
        covered(width, height, regions, i),
    decreases regions.len(),
{
    if k < regions.len() - 1 {
        lemma_in_some_region_covered(width, height, regions.drop_last(), k, i);
    }
}

/// After a pass copies `regions` from `source` into `canvas`, every byte of
/// each region that fits equals the source's byte, and every byte outside all
/// of them keeps its former value.
pub proof fn lemma_patched_contents(
    width: nat,
    height: nat,
    canvas: Seq<u8>,
    source: Seq<u8>,
    regions: Seq<Region>,
)
    requires
        source.len() == canvas.len(),
    ensures
        patched(width, height, canvas, source, regions).len() == canvas.len(),
        forall|k: int, i: int|
            0 <= k < regions.len() && 0 <= i < canvas.len() && fits(width, height, regions[k])
                && #[trigger] in_region(width, regions[k], i) ==> #[trigger] patched(
                width,
                height,
                canvas,
                source,
                regions,
            )[i] == source[i],
        forall|i: int|
            0 <= i < canvas.len() && !covered(width, height, regions, i) ==> #[trigger] patched(
                width,
                height,
                canvas,
                source,
                regions,
            )[i] == canvas[i],
{
    assert forall|k: int, i: int|
        0 <= k < regions.len() && 0 <= i < canvas.len() && fits(width, height, regions[k])
            && #[trigger] in_region(width, regions[k], i) implies #[trigger] patched(
        width,
        height,
        canvas,
        source,
        regions,
    )[i] == source[i] by {
        lemma_in_some_region_covered(width, height, regions, k, i);
    }
}

} // verus!
