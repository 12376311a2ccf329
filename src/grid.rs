use vstd::prelude::*;

verus! {

/// Turns a buffer of rows stored bottom row first into one stored top row
/// first (and back): row `i` of the result is row `n - 1 - i` of `rows`,
/// where `n` is the number of rows.
pub fn flip_rows<T>(rows: Vec<Vec<T>>) -> (r: Vec<Vec<T>>)
    ensures
        r@.len() == rows@.len(),
        forall|i: int| 0 <= i < rows@.len() ==> #[trigger] r@[i] == rows@[rows@.len() - 1 - i],
{
    let ghost n = rows@.len();
    let ghost orig = rows@;
    let mut rest = rows;
    let mut out: Vec<Vec<T>> = Vec::new();
    while rest.len() > 0
        invariant
            rest@.len() + out@.len() == n,
            forall|j: int| 0 <= j < rest@.len() ==> #[trigger] rest@[j] == orig[j],
            forall|i: int| 0 <= i < out@.len() ==> #[trigger] out@[i] == orig[n - 1 - i],
        decreases rest@.len(),
    {
        let row = rest.pop().unwrap();
        out.push(row);
    }
    out
}

/// Fills an image buffer of `height` rows of `width` pixels, stored top row
/// first, with the color `pixel(x, y)` of each pixel, where `x` counts
/// columns from the left and `y` rows from the bottom. Pixels are computed
/// bottom row first, each row from left to right.
pub fn render_rows<T, F: Fn(usize, usize) -> T>(width: usize, height: usize, pixel: F) -> (r: Vec<
    Vec<T>,
>)
    requires
        forall|x: usize, y: usize| x < width && y < height ==> #[trigger] pixel.requires((x, y)),
    ensures
        r@.len() == height,
        forall|row: int| 0 <= row < height ==> (#[trigger] r@[row])@.len() == width,
        forall|row: int, x: int|
            0 <= row < height && 0 <= x < width ==> pixel.ensures(
                (x as usize, (height - 1 - row) as usize),
                #[trigger] r@[row]@[x],
            ),
{
    let mut rows: Vec<Vec<T>> = Vec::new();
    let mut y: usize = 0;
    while y < height
        invariant
            y <= height,
            rows@.len() == y,
            forall|x: usize, y: usize| x < width && y < height ==> #[trigger] pixel.requires((x, y)),
            forall|j: int| 0 <= j < y ==> (#[trigger] rows@[j])@.len() == width,
            forall|j: int, x: int|
                0 <= j < y && 0 <= x < width ==> pixel.ensures(
                    (x as usize, j as usize),
                    #[trigger] rows@[j]@[x],
                ),
        decreases height - y,
    {
        let mut line: Vec<T> = Vec::new();
        let mut x: usize = 0;
        while x < width
            invariant
                x <= width,
                y < height,
                line@.len() == x,
                forall|x: usize, y: usize| x < width && y < height ==> #[trigger] pixel.requires((x, y)),
                forall|i: int| 0 <= i < x ==> pixel.ensures((i as usize, y), #[trigger] line@[i]),
            decreases width - x,
        {
            let c = pixel(x, y);
            line.push(c);
            x = x + 1;
        }
        rows.push(line);
        y = y + 1;
    }
    flip_rows(rows)
}

} // verus!
