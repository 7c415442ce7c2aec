use vstd::prelude::*;

verus! {

/// The number of pixels in a `width` by `height` frame, when it fits in a `u32`.
pub fn pixel_count(width: u32, height: u32) -> (r: Option<u32>)
    ensures
        r is Some <==> width as int * height as int <= u32::MAX,
        r matches Some(n) ==> n == width as int * height as int,
{
    width.checked_mul(height)
}

/// The column and row of the pixel at `index` in a frame `width` pixels wide,
/// numbered row by row; `index` is recovered as `row * width + column`.
pub fn pixel_position(index: u32, width: u32) -> (r: (u32, u32))
    requires
        width > 0,
    ensures
        r.0 == index % width,
        r.1 == index / width,
        r.0 < width,
        r.1 * width + r.0 == index,
{
    let column = index % width;
    let row = index / width;
    proof {
        assert(row * width + column == index) by (nonlinear_arith)
            requires
                width > 0,
                column == index % width,
                row == index / width,
        ;
    }
    (column, row)
}

} // verus!
