use vstd::prelude::*;

verus! {

/// The errors that can be returned if `decode()` fails when loading graphics.
#[derive(Copy, Clone, PartialEq, Eq, Structural, Debug)]
pub enum GraphicDecodeErr {
    /// Not correct format. (bad header)
    IncorrectFormat,
    /// Dimensions are not numbers
    BadNum,
    /// Not yet implemented
    GrayscaleNYI,
    /// Not yet implemented
    IndexedNYI,
    /// Not yet implemented
    AGrayscaleNYI,
    /// Bits NYI
    BitsNYI,
}

/// A pixel word with its lowest and third byte exchanged: the red and blue
/// channels of a little-endian packed RGBA or BGRA word trade places.
pub open spec fn spec_swap_rb(w: u32) -> u32 {
    (w & 0xFF00FF00u32) | ((w & 0xFFu32) << 16) | ((w >> 16) & 0xFFu32)
}

/// Builder for `Graphic`
pub struct GraphicBuilder;

impl GraphicBuilder {
    /// Create a new `GraphicBuilder`
    pub fn new() -> GraphicBuilder {
        GraphicBuilder
    }

    /// Create an RGBA graphic.
    pub fn rgba(self, w: u32, h: u32, data: Vec<u32>) -> (g: Graphic)
        requires
            w > 0,
            data@.len() == w * h,
        ensures
            !g.is_bgra(),
            g.spec_wh() == (w, h),
            g.pixels() == data@,
    {
        let bgra = false;
        Graphic { bgra, w, h, data }
    }

    /// Create a BGRA graphic.
    pub fn bgra(self, w: u32, h: u32, data: Vec<u32>) -> (g: Graphic)
        requires
            w > 0,
            data@.len() == w * h,
        ensures
            g.is_bgra(),
            g.spec_wh() == (w, h),
            g.pixels() == data@,
    {
        let bgra = true;
        Graphic { bgra, w, h, data }
    }
}

/// A graphic (image)
#[derive(Clone)]
pub struct Graphic {
    bgra: bool,
    w: u32,
    h: u32,
    data: Vec<u32>,
}

impl Graphic {
    /// Whether the pixel words are in BGRA channel order.
    pub closed spec fn is_bgra(&self) -> bool {
        self.bgra
    }

    /// The width and height of the graphic.
    pub closed spec fn spec_wh(&self) -> (u32, u32) {
        (self.w, self.h)
    }

    /// The packed pixel words of the graphic.
    pub closed spec fn pixels(&self) -> Seq<u32> {
        self.data@
    }

    /// Convert `self` into a BGRA graphic.
    pub fn bgra(&mut self)
        ensures
            final(self).is_bgra(),
            final(self).spec_wh() == old(self).spec_wh(),
            final(self).pixels().len() == old(self).pixels().len(),
            old(self).is_bgra() ==> final(self).pixels() == old(self).pixels(),
            !old(self).is_bgra() ==> forall|i: int|
                0 <= i < old(self).pixels().len() ==> final(self).pixels()[i] == spec_swap_rb(
                    old(self).pixels()[i],
                ),
    {
        if !self.bgra {
            swap_all_rb(&mut self.data);
        }
        self.bgra = true;
    }

    /// Convert `self` into a RGBA graphic.
    pub fn rgba(&mut self)
        ensures
            !final(self).is_bgra(),
            final(self).spec_wh() == old(self).spec_wh(),
            final(self).pixels().len() == old(self).pixels().len(),
            !old(self).is_bgra() ==> final(self).pixels() == old(self).pixels(),
            old(self).is_bgra() ==> forall|i: int|
                0 <= i < old(self).pixels().len() ==> final(self).pixels()[i] == spec_swap_rb(
                    old(self).pixels()[i],
                ),
    {
        if self.bgra {
            swap_all_rb(&mut self.data);
        }
        self.bgra = false;
    }

    /// Get the graphic as a slice `(w, h, [pixels])`
    pub fn as_slice(&self) -> (r: (u32, u32, &[u32]))
        ensures
            r.0 == self.spec_wh().0,
            r.1 == self.spec_wh().1,
            r.2@ == self.pixels(),
    {
        (self.w, self.h, self.data.as_slice())
    }
}

/// Exchange the red and blue channel byte of every packed pixel word.
fn swap_all_rb(data: &mut Vec<u32>)
    ensures
        final(data)@.len() == old(data)@.len(),
        forall|i: int|
            0 <= i < old(data)@.len() ==> final(data)@[i] == spec_swap_rb(old(data)@[i]),
{
    let n = data.len();
    let mut i: usize = 0;
    while i < n
        invariant
            i <= n,
            data@.len() == n,
            old(data)@.len() == n,
            forall|j: int| 0 <= j < i ==> data@[j] == spec_swap_rb(old(data)@[j]),
            forall|j: int| i <= j < n ==> data@[j] == old(data)@[j],
        decreases n - i,
    {
        let x = data[i];
        data.set(i, (x & 0xFF00FF00u32) | ((x & 0xFFu32) << 16) | ((x >> 16) & 0xFFu32));
        i = i + 1;
    }
}

} // verus!
