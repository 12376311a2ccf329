use vstd::prelude::*;

verus! {

/// The proportion `w : h` between an image's width and its height.
pub struct AspectRatio {
    pub w: usize,
    pub h: usize,
}

/// The height of an image `width` pixels wide at the ratio `w : h`: the
/// width is first cut into whole multiples of `w`.
pub open spec fn height_for(w: nat, h: nat, width: nat) -> nat
    recommends
        w > 0,
{
    (width / w) * h
}

impl AspectRatio {
    pub fn new(w: usize, h: usize) -> (r: AspectRatio)
        ensures
            r.w == w,
            r.h == h,
    {
        AspectRatio { w, h }
    }

    /// The number of rows of an image `width` pixels wide.
    pub fn calc_height(&self, width: usize) -> (r: usize)
        requires
            self.w > 0,
            height_for(self.w as nat, self.h as nat, width as nat) <= usize::MAX,
        ensures
            r == height_for(self.w as nat, self.h as nat, width as nat),
    {
        (width / self.w) * self.h
    }
}

} // verus!
