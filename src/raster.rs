use vstd::prelude::*;

use crate::color::Color;

verus! {

/// The resolution as signed numbers, as the ray setup uses it.
pub fn i32_res(resolution: (usize, usize)) -> (r: (i32, i32))
    requires
        resolution.0 <= i32::MAX,
        resolution.1 <= i32::MAX,
    ensures
        r.0 == resolution.0,
        r.1 == resolution.1,
{
    (resolution.0 as i32, resolution.1 as i32)
}

/// Where a pixel lies relative to the center of the image, with `y` growing
/// upwards: `(x - columns / 2, lines / 2 - y)`.
pub fn pixel_offset(pixel: (usize, usize), resolution: (usize, usize)) -> (o: (i32, i32))
    requires
        pixel.0 <= i32::MAX,
        pixel.1 <= i32::MAX,
        resolution.0 <= i32::MAX,
        resolution.1 <= i32::MAX,
    ensures
        o.0 == pixel.0 as int - resolution.0 as int / 2,
        o.1 == resolution.1 as int / 2 - pixel.1 as int,
{
    let (x, y) = (pixel.0 as i32, pixel.1 as i32);
    let (xs, ys) = i32_res(resolution);
    (x - xs / 2, -(y - ys / 2))
}

/// `lines` rows, each of `columns` colors.
pub open spec fn is_frame(image: Seq<Vec<Color>>, columns: int, lines: int) -> bool {
    &&& image.len() == lines
    &&& forall|y: int| 0 <= y < lines ==> (#[trigger] image[y])@.len() == columns
}

/// The rows of an image before rendering: one empty row per line.
pub fn empty_frame(lines: usize) -> (image: Vec<Vec<Color>>)
    ensures
        image@.len() == lines,
        forall|y: int| 0 <= y < lines ==> (#[trigger] image@[y])@.len() == 0,
{
    let mut image: Vec<Vec<Color>> = Vec::with_capacity(lines);
    while image.len() < lines
        invariant
            image@.len() <= lines,
            forall|y: int| 0 <= y < image@.len() ==> (#[trigger] image@[y])@.len() == 0,
        decreases lines - image@.len(),
    {
        image.push(Vec::new());
    }
    image
}

/// Whether every line of the image holds one color per column.
pub fn is_complete_frame(image: &Vec<Vec<Color>>, resolution: (usize, usize)) -> (b: bool)
    ensures
        b == is_frame(image@, resolution.0 as int, resolution.1 as int),
{
    if image.len() != resolution.1 {
        return false;
    }
    let mut y: usize = 0;
    while y < image.len()
        invariant
            y <= image@.len(),
            image@.len() == resolution.1,
            forall|k: int| 0 <= k < y ==> (#[trigger] image@[k])@.len() == resolution.0,
        decreases image@.len() - y,
    {
        if image[y].len() != resolution.0 {
            return false;
        }
        y = y + 1;
    }
    true
}

/// The channels of the pixel in column `x` of line `y`.
pub fn raw_pixel(image: &Vec<Vec<Color>>, x: u32, y: u32) -> (p: [u8; 3])
    requires
        (y as int) < image@.len(),
        (x as int) < image@[y as int]@.len(),
    ensures
        p@ == seq![
            image@[y as int]@[x as int].r,
            image@[y as int]@[x as int].g,
            image@[y as int]@[x as int].b,
        ],
{
    image[y as usize][x as usize].raw()
}

} // verus!
