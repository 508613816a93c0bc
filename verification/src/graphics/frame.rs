//! Frames as rows of pixels.
use vstd::prelude::*;
use crate::graphics::tiles::{SCREEN_H, SCREEN_W};

verus! {

/// How many pixels a frame has.
pub open spec fn frame_len() -> int {
    SCREEN_W * SCREEN_H
}

/// Row `y` of a frame.
pub open spec fn row_of(frame: Seq<u32>, y: int) -> Seq<u32> {
    Seq::new(SCREEN_W as nat, |x: int| frame[y * SCREEN_W + x])
}

/// The frame with row `y` replaced.
pub open spec fn with_row(frame: Seq<u32>, y: int, row: Seq<u32>) -> Seq<u32> {
    Seq::new(
        frame.len(),
        |i: int|
            if i / (SCREEN_W as int) == y {
                row[i % (SCREEN_W as int)]
            } else {
                frame[i]
            },
    )
}

/// The frame that has `row(y)` in every row.
pub open spec fn frame_of(row: spec_fn(int) -> Seq<u32>) -> Seq<u32> {
    Seq::new(
        frame_len() as nat,
        |i: int| row(i / (SCREEN_W as int))[i % (SCREEN_W as int)],
    )
}

/// A pixel set in one row of a frame.
pub proof fn set_in_row(frame: Seq<u32>, y: int, row: Seq<u32>, x: int, v: u32)
    requires
        frame.len() == frame_len(),
        0 <= y < SCREEN_H,
        0 <= x < SCREEN_W,
        row.len() == SCREEN_W,
    ensures
        with_row(frame, y, row).update(y * SCREEN_W + x, v) == with_row(
            frame,
            y,
            row.update(x, v),
        ),
{
    assert(with_row(frame, y, row).update(y * SCREEN_W + x, v) =~= with_row(
        frame,
        y,
        row.update(x, v),
    ));
}

/// A row put back is no change, the row put in is the row there, other rows
/// stay, and the later of two rows counts.
pub proof fn row_laws(frame: Seq<u32>, y: int, row: Seq<u32>, z: int, other: Seq<u32>)
    requires
        frame.len() == frame_len(),
        0 <= y < SCREEN_H,
        0 <= z < SCREEN_H,
        row.len() == SCREEN_W,
    ensures
        with_row(frame, y, row_of(frame, y)) == frame,
        row_of(with_row(frame, y, row), y) == row,
        z != y ==> row_of(with_row(frame, y, row), z) == row_of(frame, z),
        with_row(with_row(frame, y, other), y, row) == with_row(frame, y, row),
{
    assert(with_row(frame, y, row_of(frame, y)) =~= frame);
    assert(row_of(with_row(frame, y, row), y) =~= row);
    if z != y {
        assert(row_of(with_row(frame, y, row), z) =~= row_of(frame, z));
    }
    assert(with_row(with_row(frame, y, other), y, row) =~= with_row(frame, y, row));
}

/// Two frames with the same rows are the same frame.
pub proof fn rows_make_frame(a: Seq<u32>, b: Seq<u32>)
    requires
        a.len() == frame_len(),
        b.len() == frame_len(),
        forall|y: int| 0 <= y < SCREEN_H ==> #[trigger] row_of(a, y) == row_of(b, y),
    ensures
        a == b,
{
    assert forall|i: int| 0 <= i < a.len() implies a[i] == b[i] by {
        let y = i / (SCREEN_W as int);
        let x = i % (SCREEN_W as int);
        assert(row_of(a, y)[x] == a[i]);
        assert(row_of(b, y)[x] == b[i]);
    }
    assert(a =~= b);
}

}
