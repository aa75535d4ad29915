//! The layout strategies a container uses to turn its own resolved bounds
//! into each child's bounds: flex (equal division along one axis), grid
//! (row-major cells) and absolute (fixed offset, sizes kept).

use vstd::prelude::*;

use crate::geometry::UIRect;

verus! {

/// Upper bound on padding, gaps and absolute offsets. Keeps every
/// intermediate of the layout arithmetic inside 64 bits.
pub const MAX_DIM: i32 = 1048576;

/// Upper bound on grid columns and rows.
pub const MAX_CELLS: usize = 65536;

/// Upper bound on the number of children of one container.
pub const MAX_CHILDREN: usize = 4096;

/// Direction of the primary axis for flex layout.
#[derive(Debug, Clone, Copy, PartialEq, Eq, Structural)]
pub enum FlexDirection {
    Row,
    Column,
}

/// Cross-axis alignment options for flex layout. Accepted as
/// configuration; under the current equal-fill cross-axis policy every
/// child spans the full cross axis, so the variants do not change the
/// computed bounds.
#[derive(Debug, Clone, Copy, PartialEq, Eq, Structural)]
pub enum Alignment {
    Start,
    Center,
    End,
}

/// Layout strategies for containers.
#[derive(Debug, Clone, Copy, PartialEq, Eq, Structural)]
pub enum Layout {
    /// Flex layout with direction, gap, and alignment.
    Flex { direction: FlexDirection, gap: i32, align: Alignment },
    /// Grid layout with columns, rows, and gap.
    Grid { cols: usize, rows: usize, gap: i32 },
    /// Absolute positioning with offset from parent.
    Absolute { x: i32, y: i32 },
}

/// Configuration limits a layout must respect: gaps are non-negative and
/// bounded, grids are bounded, offsets are bounded. Negative gaps are
/// rejected as the specification demands; the upper caps keep layout
/// arithmetic within the machine's integer range.
pub open spec fn layout_wf(l: Layout) -> bool {
    match l {
        Layout::Flex { direction, gap, align } => 0 <= gap <= MAX_DIM,
        Layout::Grid { cols, rows, gap } => cols <= MAX_CELLS && rows <= MAX_CELLS && 0 <= gap
            <= MAX_DIM,
        Layout::Absolute { x, y } => -MAX_DIM <= x <= MAX_DIM && -MAX_DIM <= y <= MAX_DIM,
    }
}

/// The container's bounds shrunk by `padding` on all four sides, as
/// mathematical integers (x, y, width, height). May be degenerate when
/// the padding exceeds half a dimension.
pub open spec fn padded_bounds(b: UIRect, padding: int) -> (int, int, int, int) {
    (b.x + padding, b.y + padding, b.width - 2 * padding, b.height - 2 * padding)
}

/// The rectangle flex layout assigns to child `i` of `n`: the padded
/// length along `direction`, minus `gap` between neighbours, divided
/// evenly (flooring) among the `n` children; the full padded length on
/// the cross axis; children placed consecutively from the padded origin.
pub open spec fn flex_child(
    pb: (int, int, int, int),
    direction: FlexDirection,
    gap: int,
    n: int,
    i: int,
) -> (int, int, int, int) {
    let total_gap = gap * (n - 1);
    match direction {
        FlexDirection::Row => {
            let size = (pb.2 - total_gap) / n;
            (pb.0 + i * (size + gap), pb.1, size, pb.3)
        },
        FlexDirection::Column => {
            let size = (pb.3 - total_gap) / n;
            (pb.0, pb.1 + i * (size + gap), pb.2, size)
        },
    }
}

/// The cell grid layout assigns to child `i`, in row-major order: column
/// `i % cols`, row `i / cols`, with the padded extents divided evenly
/// (flooring) into `cols x rows` cells separated by `gap`.
pub open spec fn grid_child(
    pb: (int, int, int, int),
    cols: int,
    rows: int,
    gap: int,
    i: int,
) -> (int, int, int, int) {
    let cell_w = (pb.2 - gap * (cols - 1)) / cols;
    let cell_h = (pb.3 - gap * (rows - 1)) / rows;
    let col = i % cols;
    let row = i / cols;
    (pb.0 + col * (cell_w + gap), pb.1 + row * (cell_h + gap), cell_w, cell_h)
}

/// The rectangle a layout strategy computes for child `i` of `n`, whose
/// current bounds are `cur`, inside a container with the given bounds and
/// padding. `None` means the strategy leaves this child's bounds alone:
/// a grid with more children than cells drops the excess children, and a
/// grid configured with zero columns or rows is an invalid configuration
/// treated as a no-op rather than a division by zero. Absolute layout
/// repositions the child at a fixed offset from the padded origin and is
/// the only strategy that keeps the child's own width and height.
pub open spec fn child_target(
    bounds: UIRect,
    padding: int,
    layout: Layout,
    i: int,
    n: int,
    cur: UIRect,
) -> Option<(int, int, int, int)> {
    let pb = padded_bounds(bounds, padding);
    match layout {
        Layout::Flex { direction, gap, align } => if 1 <= n && 0 <= i < n {
            Some(flex_child(pb, direction, gap as int, n, i))
        } else {
            None
        },
        Layout::Grid { cols, rows, gap } => if 1 <= cols && 1 <= rows && 0 <= i && i / (
        cols as int) < rows {
            Some(grid_child(pb, cols as int, rows as int, gap as int, i))
        } else {
            None
        },
        Layout::Absolute { x, y } => Some(
            (pb.0 + x, pb.1 + y, cur.width as int, cur.height as int),
        ),
    }
}

/// True when all four components lie within the 32-bit coordinate range.
pub open spec fn fits_i32(t: (int, int, int, int)) -> bool {
    &&& i32::MIN <= t.0 <= i32::MAX
    &&& i32::MIN <= t.1 <= i32::MAX
    &&& i32::MIN <= t.2 <= i32::MAX
    &&& i32::MIN <= t.3 <= i32::MAX
}

/// The bounds actually assigned to child `i` of `n`: the strategy's
/// target rectangle when there is one and it fits the coordinate range,
/// and `None` (child keeps its previous bounds) otherwise.
pub open spec fn child_new_bounds(
    bounds: UIRect,
    padding: int,
    layout: Layout,
    i: int,
    n: int,
    cur: UIRect,
) -> Option<UIRect> {
    match child_target(bounds, padding, layout, i, n, cur) {
        Option::Some(t) => if fits_i32(t) {
            Some(UIRect { x: t.0 as i32, y: t.1 as i32, width: t.2 as i32, height: t.3 as i32 })
        } else {
            None
        },
        Option::None => None,
    }
}

/// Floor division bounds: for a positive divisor the quotient lies
/// between the dividend and zero.
proof fn lemma_div_floor_bounds(a: int, b: int)
    requires
        1 <= b,
    ensures
        a >= 0 ==> 0 <= a / b <= a,
        a < 0 ==> a <= a / b <= 0,
{
    assert((a >= 0 ==> 0 <= a / b <= a) && (a < 0 ==> a <= a / b <= 0)) by (nonlinear_arith)
        requires
            1 <= b,
    ;
}

/// A product of a value in `[0, n]` and a value in `[-s, s]` lies in
/// `[-(n * s), n * s]`.
proof fn lemma_mul_abs_bound(i: int, n: int, v: int, s: int)
    requires
        0 <= i <= n,
        -s <= v <= s,
        0 <= s,
    ensures
        -(n * s) <= i * v <= n * s,
{
    assert(-(n * s) <= i * v <= n * s) by (nonlinear_arith)
        requires
            0 <= i <= n,
            -s <= v <= s,
            0 <= s,
    ;
}

/// Flex divides the padded primary-axis length, less the gaps, evenly
/// among the children: every child of a flex container receives the same
/// primary size `(avail - gap * (n - 1)) / n`, the full padded cross-axis
/// length, and a position that places the children consecutively from the
/// padded origin with `gap` between neighbours.
pub proof fn lemma_flex_equal_division(
    bounds: UIRect,
    padding: int,
    direction: FlexDirection,
    gap: i32,
    align: Alignment,
    n: int,
    i: int,
    cur: UIRect,
)
    requires
        1 <= n,
        0 <= i < n,
    ensures
        ({
            let pb = padded_bounds(bounds, padding);
            let avail = if direction is Row {
                pb.2
            } else {
                pb.3
            };
            let size = (avail - gap * (n - 1)) / n;
            child_target(bounds, padding, Layout::Flex { direction, gap, align }, i, n, cur)
                == Some(
                if direction is Row {
                    (pb.0 + i * (size + gap), pb.1, size, pb.3)
                } else {
                    (pb.0, pb.1 + i * (size + gap), pb.2, size)
                },
            )
        }),
{
}

/// The sum of the `n` equal flex shares plus the `n - 1` gaps recovers
/// the available primary length up to the division remainder, which is
/// smaller than `n`.
pub proof fn lemma_flex_division_total(avail: int, gap: int, n: int)
    requires
        1 <= n,
        0 <= gap,
        0 <= avail - gap * (n - 1),
    ensures
        ({
            let size = (avail - gap * (n - 1)) / n;
            n * size + gap * (n - 1) <= avail < n * size + gap * (n - 1) + n
        }),
{
    let num = avail - gap * (n - 1);
    assert(num == n * (num / n) + num % n && 0 <= num % n < n) by (nonlinear_arith)
        requires
            1 <= n,
    ;
}

/// Grid assigns children to cells in row-major order: child `i` goes to
/// column `i % cols` and row `i / cols`; a child whose row would fall
/// outside the grid is not laid out and keeps its previous bounds.
pub proof fn lemma_grid_row_major(
    bounds: UIRect,
    padding: int,
    cols: usize,
    rows: usize,
    gap: i32,
    i: int,
    n: int,
    cur: UIRect,
)
    requires
        1 <= cols,
        1 <= rows,
        0 <= i,
    ensures
        ({
            let pb = padded_bounds(bounds, padding);
            let cell_w = (pb.2 - gap * (cols - 1)) / cols as int;
            let cell_h = (pb.3 - gap * (rows - 1)) / rows as int;
            let lay = Layout::Grid { cols, rows, gap };
            &&& i < cols * rows ==> child_target(bounds, padding, lay, i, n, cur) == Some(
                (
                    pb.0 + (i % cols as int) * (cell_w + gap),
                    pb.1 + (i / cols as int) * (cell_h + gap),
                    cell_w,
                    cell_h,
                ),
            )
            &&& i >= cols * rows ==> child_target(bounds, padding, lay, i, n, cur) is None
        }),
{
    let c = cols as int;
    let r = rows as int;
    assert(i < c * r ==> i / c < r) by (nonlinear_arith)
        requires
            1 <= c && 1 <= r && 0 <= i,
    ;
    assert(i >= c * r ==> i / c >= r) by (nonlinear_arith)
        requires
            1 <= c && 1 <= r && 0 <= i,
    ;
}

/// Absolute layout repositions every child at the padded origin plus the
/// fixed offset and is the only strategy that never resizes: the child's
/// own width and height are kept.
pub proof fn lemma_absolute_repositions(
    bounds: UIRect,
    padding: int,
    ox: i32,
    oy: i32,
    i: int,
    n: int,
    cur: UIRect,
)
    ensures
        child_target(bounds, padding, Layout::Absolute { x: ox, y: oy }, i, n, cur) == Some(
            (
                bounds.x + padding + ox,
                bounds.y + padding + oy,
                cur.width as int,
                cur.height as int,
            ),
        ),
{
}

/// Floor division for 64-bit integers with a positive divisor.
fn div_floor(a: i64, b: i64) -> (q: i64)
    requires
        1 <= b,
    ensures
        q == a as int / b as int,
{
    proof {
        lemma_div_floor_bounds(a as int, b as int);
    }
    a.checked_div_euclid(b).unwrap()
}

/// Convert a target rectangle to 32-bit coordinates when it fits.
fn make_rect(x: i64, y: i64, w: i64, h: i64) -> (r: Option<UIRect>)
    ensures
        fits_i32((x as int, y as int, w as int, h as int)) ==> r == Some(
            UIRect { x: x as i32, y: y as i32, width: w as i32, height: h as i32 },
        ),
        !fits_i32((x as int, y as int, w as int, h as int)) ==> r is None,
{
    let lo: i64 = i32::MIN as i64;
    let hi: i64 = i32::MAX as i64;
    if lo <= x && x <= hi && lo <= y && y <= hi && lo <= w && w <= hi && lo <= h && h <= hi {
        Some(UIRect { x: x as i32, y: y as i32, width: w as i32, height: h as i32 })
    } else {
        None
    }
}

/// Compute the bounds the layout assigns to child `i` of `n` whose
/// current bounds are `cur`. `None` means the child keeps its previous
/// bounds.
pub fn compute_child_bounds(
    bounds: UIRect,
    padding: i32,
    layout: &Layout,
    i: usize,
    n: usize,
    cur: UIRect,
) -> (r: Option<UIRect>)
    requires
        0 <= padding <= MAX_DIM,
        layout_wf(*layout),
        n <= MAX_CHILDREN,
        i < n,
    ensures
        r == child_new_bounds(bounds, padding as int, *layout, i as int, n as int, cur),
{
    let px: i64 = bounds.x as i64 + padding as i64;
    let py: i64 = bounds.y as i64 + padding as i64;
    let pw: i64 = bounds.width as i64 - 2 * (padding as i64);
    let ph: i64 = bounds.height as i64 - 2 * (padding as i64);
    match layout {
        Layout::Flex { direction, gap, align } => {
            let g: i64 = *gap as i64;
            let m: i64 = (n - 1) as i64;
            proof {
                lemma_mul_abs_bound(g as int, MAX_DIM as int, m as int, MAX_CHILDREN as int);
            }
            let total_gap: i64 = g * m;
            let (avail, cross): (i64, i64) = match direction {
                FlexDirection::Row => (pw, ph),
                FlexDirection::Column => (ph, pw),
            };
            let num: i64 = avail - total_gap;
            proof {
                lemma_div_floor_bounds(num as int, n as int);
            }
            let size: i64 = div_floor(num, n as i64);
            let step: i64 = size + g;
            proof {
                lemma_mul_abs_bound(
                    i as int,
                    MAX_CHILDREN as int,
                    step as int,
                    0x300000000i64 as int,
                );
            }
            let offset: i64 = (i as i64) * step;
            match direction {
                FlexDirection::Row => make_rect(px + offset, py, size, ph),
                FlexDirection::Column => make_rect(px, py + offset, pw, size),
            }
        },
        Layout::Grid { cols, rows, gap } => {
            if *cols == 0 || *rows == 0 {
                return None;
            }
            let col: usize = i % *cols;
            let row: usize = i / *cols;
            if row >= *rows {
                return None;
            }
            let g: i64 = *gap as i64;
            proof {
                lemma_mul_abs_bound(g as int, MAX_DIM as int, (*cols - 1) as int, MAX_CELLS as int);
                lemma_mul_abs_bound(g as int, MAX_DIM as int, (*rows - 1) as int, MAX_CELLS as int);
            }
            let wnum: i64 = pw - g * ((*cols - 1) as i64);
            let hnum: i64 = ph - g * ((*rows - 1) as i64);
            proof {
                lemma_div_floor_bounds(wnum as int, *cols as int);
                lemma_div_floor_bounds(hnum as int, *rows as int);
            }
            let cell_w: i64 = div_floor(wnum, *cols as i64);
            let cell_h: i64 = div_floor(hnum, *rows as i64);
            proof {
                lemma_mul_abs_bound(
                    col as int,
                    MAX_CELLS as int,
                    (cell_w + g) as int,
                    0x40000000000i64 as int,
                );
                lemma_mul_abs_bound(
                    row as int,
                    MAX_CELLS as int,
                    (cell_h + g) as int,
                    0x40000000000i64 as int,
                );
            }
            let x: i64 = px + (col as i64) * (cell_w + g);
            let y: i64 = py + (row as i64) * (cell_h + g);
            make_rect(x, y, cell_w, cell_h)
        },
        Layout::Absolute { x, y } => make_rect(
            px + *x as i64,
            py + *y as i64,
            cur.width as i64,
            cur.height as i64,
        ),
    }
}

} // verus!
