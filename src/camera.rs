use vstd::prelude::*;

verus! {

/// Horizontal offset, in half-pixel units, from the image centre to the
/// centre of column `col`: `2 * ((col + 1/2) - width / 2)`.
pub open spec fn offset_x(width: int, col: int) -> int {
    2 * col + 1 - width
}

/// Vertical offset, in half-pixel units, from the image centre to the centre
/// of row `row`, positive upwards: `2 * (height / 2 - (row + 1/2))`.
pub open spec fn offset_y(height: int, row: int) -> int {
    height - 2 * row - 1
}

/// Row and column of the pixel at `index` in a row-major grid `width`
/// pixels wide.
pub fn pixel_coords(width: usize, index: usize) -> (r: (usize, usize))
    requires
        width > 0,
    ensures
        r.0 == index / width,
        r.1 == index % width,
        r.1 < width,
        index == r.1 + r.0 * width,
{
    let row = index / width;
    let col = index % width;
    proof {
        vstd::arithmetic::div_mod::lemma_fundamental_div_mod(index as int, width as int);
    }
    (row, col)
}

/// Where the primary ray of the pixel at `index` crosses the image plane,
/// relative to the image centre, in half-pixel units (x to the right, y
/// upwards). The ray leaves the camera at the origin; its direction is this
/// offset halved, with a depth set by the field of view. Being a function of
/// the pixel's index alone, it does not depend on the order in which pixels
/// are rendered.
pub fn primary_ray_offset(width: usize, height: usize, index: usize) -> (r: (i64, i64))
    requires
        0 < width,
        2 * width <= i64::MAX,
        2 * height <= i64::MAX,
        index < width * height,
    ensures
        r.0 == offset_x(width as int, (index % width) as int),
        r.1 == offset_y(height as int, (index / width) as int),
{
    let (row, col) = pixel_coords(width, index);
    proof {
        vstd::arithmetic::div_mod::lemma_multiply_divide_lt(index as int, width as int, height as int);
    }
    let x = 2 * (col as i64) + 1 - (width as i64);
    let y = (height as i64) - 2 * (row as i64) - 1;
    (x, y)
}

} // verus!
