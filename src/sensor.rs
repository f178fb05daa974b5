use vstd::prelude::*;

verus! {

/// Offsets `(x, y)` of row `y` with `x` in `[-radius, -radius + k)`, in
/// increasing `x`, the centre `(0, 0)` left out.
pub open spec fn row_offsets(radius: int, y: int, k: int) -> Seq<(i32, i32)>
    decreases k,
{
    if k <= 0 {
        seq![]
    } else {
        let prev = row_offsets(radius, y, k - 1);
        let x = -radius + k - 1;
        if x == 0 && y == 0 {
            prev
        } else {
            prev.push((x as i32, y as i32))
        }
    }
}

/// The first `k` rows of the square of half-width `radius`, from
/// `y = -radius` down, each row as `row_offsets` lists it.
pub open spec fn rows_offsets(radius: int, k: int) -> Seq<(i32, i32)>
    decreases k,
{
    if k <= 0 {
        seq![]
    } else {
        rows_offsets(radius, k - 1) + row_offsets(radius, -radius + k - 1, 2 * radius + 1)
    }
}

/// The cells of a sensor window of half-width `radius`: the centre first,
/// then every other cell of the square in row-major order.
pub open spec fn pixel_list(radius: int) -> Seq<(i32, i32)> {
    if radius > 0 {
        seq![(0i32, 0i32)] + rows_offsets(radius, 2 * radius + 1)
    } else {
        seq![(0i32, 0i32)]
    }
}

proof fn lemma_row_offsets_len(radius: int, y: int, k: int)
    requires
        0 <= k <= 2 * radius + 1,
    ensures
        row_offsets(radius, y, k).len() == if y == 0 && k > radius { k - 1 } else { k },
    decreases k,
{
    if k > 0 {
        lemma_row_offsets_len(radius, y, k - 1);
    }
}

proof fn lemma_rows_offsets_len(radius: int, k: int)
    requires
        0 <= radius,
        0 <= k <= 2 * radius + 1,
    ensures
        rows_offsets(radius, k).len() == k * (2 * radius + 1) - if k > radius { 1int } else { 0int },
    decreases k,
{
    if k > 0 {
        lemma_rows_offsets_len(radius, k - 1);
        let y = -radius + k - 1;
        lemma_row_offsets_len(radius, y, 2 * radius + 1);
        let n = 2 * radius + 1;
        let prev = rows_offsets(radius, k - 1).len() as int;
        let row = row_offsets(radius, y, n).len() as int;
        assert(k * n == (k - 1) * n + n) by (nonlinear_arith);
        assert(rows_offsets(radius, k).len() == prev + row);
        if k - 1 > radius {
            assert(prev == (k - 1) * n - 1);
            assert(row == n);
        } else if k - 1 == radius {
            assert(prev == (k - 1) * n);
            assert(row == n - 1);
        } else {
            assert(prev == (k - 1) * n);
            assert(row == n);
        }
    } else {
        assert(k * (2 * radius + 1) == 0) by (nonlinear_arith)
            requires
                k == 0,
        ;
    }
}

/// A window of half-width `radius` holds `(2 * radius + 1)` squared cells.
pub proof fn lemma_pixel_list_len(radius: int)
    requires
        0 <= radius,
    ensures
        pixel_list(radius).len() == (2 * radius + 1) * (2 * radius + 1),
{
    if radius > 0 {
        lemma_rows_offsets_len(radius, 2 * radius + 1);
        assert(pixel_list(radius).len() == 1 + rows_offsets(radius, 2 * radius + 1).len());
    } else {
        assert((2 * radius + 1) * (2 * radius + 1) == 1) by (nonlinear_arith)
            requires
                radius == 0,
        ;
    }
}

/// The cell offsets of a sensor window of half-width `radius`: `(0, 0)`
/// first, then the other cells of the square, row by row.
pub fn calculate_pixel_list(radius: i32) -> (list: Vec<(i32, i32)>)
    requires
        radius < i32::MAX,
    ensures
        list@ == pixel_list(radius as int),
{
    let mut list: Vec<(i32, i32)> = Vec::new();
    list.push((0, 0));
    if radius > 0 {
        let r = radius as i64;
        let mut y: i64 = -r;
        while y <= r
            invariant
                0 < r < i32::MAX,
                r == radius,
                -r <= y <= r + 1,
                list@ == seq![(0i32, 0i32)] + rows_offsets(r as int, y + r),
            decreases r + 1 - y,
        {
            let ghost before = list@;
            let mut x: i64 = -r;
            while x <= r
                invariant
                    0 < r < i32::MAX,
                    -r <= y <= r,
                    -r <= x <= r + 1,
                    list@ == before + row_offsets(r as int, y as int, x + r),
                decreases r + 1 - x,
            {
                if !(x == 0 && y == 0) {
                    list.push((x as i32, y as i32));
                }
                proof {
                    assert(row_offsets(r as int, y as int, x + r + 1) == if x == 0 && y == 0 {
                        row_offsets(r as int, y as int, x + r)
                    } else {
                        row_offsets(r as int, y as int, x + r).push((x as i32, y as i32))
                    });
                }
                x = x + 1;
            }
            proof {
                assert(rows_offsets(r as int, y + r + 1) == rows_offsets(r as int, y + r) + row_offsets(
                    r as int,
                    y as int,
                    2 * r + 1,
                ));
                assert(list@ =~= seq![(0i32, 0i32)] + rows_offsets(r as int, y + r + 1));
            }
            y = y + 1;
        }
    }
    list
}

} // verus!
