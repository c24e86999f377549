//! Layout of the status window, ordering of the drawn spectrum, and the off-screen colour
//! map that a worker thread draws into.
use vstd::prelude::*;

verus! {

/// Splits a pixel extent into an upper and a lower part, the upper one taking the
/// smaller half when the extent is odd.
pub fn split_area(size: usize) -> (parts: (usize, usize))
    ensures
        parts.0 == size / 2,
        parts.0 + parts.1 == size,
{
    (size / 2, size - size / 2)
}

/// The spectrum in drawing order: the upper half of the transform's bins (from index
/// `len / 2` on) followed by the lower half, so that the zero frequency sits in the middle.
pub open spec fn centered<T>(freq: Seq<T>) -> Seq<T> {
    let half = (freq.len() / 2) as int;
    freq.subrange(half, freq.len() as int) + freq.subrange(0, half)
}

/// Puts the bins of a discrete Fourier transform in drawing order (see [`centered`]).
pub fn center_spectrum<T: Copy>(freq: &[T]) -> (out: Vec<T>)
    ensures
        out@ == centered(freq@),
{
    let n = freq.len();
    let half = n / 2;
    let mut out: Vec<T> = Vec::with_capacity(n);
    let mut i = half;
    while i < n
        invariant
            n == freq@.len(),
            half == n / 2,
            half <= i <= n,
            out@ == freq@.subrange(half as int, i as int),
        decreases n - i,
    {
        out.push(freq[i]);
        i += 1;
        assert(out@ =~= freq@.subrange(half as int, i as int));
    }
    let mut j: usize = 0;
    while j < half
        invariant
            n == freq@.len(),
            half == n / 2,
            j <= half,
            out@ == freq@.subrange(half as int, n as int) + freq@.subrange(0, j as int),
        decreases half - j,
    {
        out.push(freq[j]);
        j += 1;
        assert(out@ =~= freq@.subrange(half as int, n as int) + freq@.subrange(0, j as int));
    }
    out
}

/// What to do with the status window before drawing a frame.
#[derive(Debug, Clone, Copy, PartialEq, Eq, Structural)]
pub enum WindowStep {
    /// The window is open: draw into it.
    Keep,
    /// The window was closed by the user: open a new one in its place.
    Reopen,
    /// There is no window yet: size the pixel buffer and open one.
    Create,
}

/// Chooses the window step from whether a window exists and, if so, whether it is open.
pub fn window_step(window_open: Option<bool>) -> (step: WindowStep)
    ensures
        step == match window_open {
            None => WindowStep::Create,
            Some(true) => WindowStep::Keep,
            Some(false) => WindowStep::Reopen,
        },
{
    match window_open {
        None => WindowStep::Create,
        Some(open) => if open {
            WindowStep::Keep
        } else {
            WindowStep::Reopen
        },
    }
}

/// The status window's pixel buffer: `width` pixels per row, the time-domain plot in the
/// upper rows and the spectrum in the lower ones.
#[derive(Debug, Clone, Copy, PartialEq, Eq, Structural)]
pub struct FrameLayout {
    pub width: usize,
    pub upper_height: usize,
    pub lower_height: usize,
}

impl FrameLayout {
    /// The layout of a window of `size` = (width, height).
    pub fn new(size: (usize, usize)) -> (layout: FrameLayout)
        ensures
            layout.width == size.0,
            layout.upper_height == size.1 / 2,
            layout.upper_height + layout.lower_height == size.1,
    {
        let (upper, lower) = split_area(size.1);
        FrameLayout { width: size.0, upper_height: upper, lower_height: lower }
    }

    /// Whether the whole buffer can be indexed.
    pub open spec fn fits(&self) -> bool {
        &&& self.upper_height + self.lower_height <= usize::MAX
        &&& self.width * (self.upper_height + self.lower_height) <= usize::MAX
    }

    /// Number of pixels of the whole window.
    pub fn buffer_len(&self) -> (len: usize)
        requires
            self.fits(),
        ensures
            len == self.width * (self.upper_height + self.lower_height),
    {
        self.width * (self.upper_height + self.lower_height)
    }

    /// Index of the first pixel of the lower part.
    pub fn split_index(&self) -> (idx: usize)
        requires
            self.fits(),
        ensures
            idx == self.width * self.upper_height,
            idx <= self.width * (self.upper_height + self.lower_height),
    {
        proof {
            let w = self.width as int;
            let u = self.upper_height as int;
            let l = self.lower_height as int;
            assert(w * u <= w * (u + l)) by (nonlinear_arith)
                requires
                    w >= 0,
                    u >= 0,
                    l >= 0,
            ;
        }
        self.width * self.upper_height
    }

    /// Size, as (width, height), of the lower part, where the colour map is drawn.
    pub fn lower_size(&self) -> (size: (usize, usize))
        ensures
            size == (self.width, self.lower_height),
    {
        (self.width, self.lower_height)
    }
}

} // verus!

verus! {

/// `n` pixels of value zero.
pub open spec fn blank(n: nat) -> Seq<u32> {
    Seq::new(n, |_i: int| 0u32)
}

/// The pixels of a buffer of `n` pixels made from `old` by keeping what fits and padding
/// with zero pixels.
pub open spec fn resized(old: Seq<u32>, n: nat) -> Seq<u32> {
    if n <= old.len() {
        old.subrange(0, n as int)
    } else {
        old + blank((n - old.len()) as nat)
    }
}

/// An off-screen pixel buffer of `size` = (width, height), one `u32` per pixel.
pub struct Bitmap {
    size: (usize, usize),
    pixels: Vec<u32>,
}

impl View for Bitmap {
    type V = ((usize, usize), Seq<u32>);

    closed spec fn view(&self) -> ((usize, usize), Seq<u32>) {
        (self.size, self.pixels@)
    }
}

/// Appends `count` zero pixels.
fn pad_with_zeros(pixels: &mut Vec<u32>, count: usize)
    ensures
        final(pixels)@ == old(pixels)@ + blank(count as nat),
{
    let mut k: usize = 0;
    while k < count
        invariant
            k <= count,
            pixels@ == old(pixels)@ + blank(k as nat),
        decreases count - k,
    {
        pixels.push(0);
        k += 1;
        assert(pixels@ =~= old(pixels)@ + blank(k as nat));
    }
}

impl Bitmap {
    /// A blank bitmap of `size` = (width, height).
    pub fn new(size: (usize, usize)) -> (b: Bitmap)
        requires
            size.0 * size.1 <= usize::MAX,
        ensures
            b@.0 == size,
            b@.1 == blank((size.0 * size.1) as nat),
    {
        let mut pixels: Vec<u32> = Vec::new();
        pad_with_zeros(&mut pixels, size.0 * size.1);
        assert(pixels@ =~= blank((size.0 * size.1) as nat));
        Bitmap { size, pixels }
    }

    /// Gives the bitmap the new `size`: the buffer gets width times height pixels, keeping
    /// those that fit and padding with zero pixels.
    pub fn set_size(&mut self, size: (usize, usize))
        requires
            size.0 * size.1 <= usize::MAX,
        ensures
            final(self)@.0 == size,
            final(self)@.1 == resized(old(self)@.1, (size.0 * size.1) as nat),
    {
        let n = size.0 * size.1;
        let len = self.pixels.len();
        if n <= len {
            self.pixels.truncate(n);
        } else {
            pad_with_zeros(&mut self.pixels, n - len);
        }
        self.size = size;
    }

    /// The size of the bitmap, as (width, height).
    pub fn size(&self) -> (size: (usize, usize))
        ensures
            size == self@.0,
    {
        self.size
    }

    /// Replaces the pixels by a drawn picture of the same size.
    pub fn set_pixels(&mut self, pixels: Vec<u32>)
        requires
            pixels@.len() == old(self)@.1.len(),
        ensures
            final(self)@ == (old(self)@.0, pixels@),
    {
        self.pixels = pixels;
    }

    /// The pixels, row after row.
    pub fn pixels(&self) -> (pixels: &[u32])
        ensures
            pixels@ == self@.1,
    {
        self.pixels.as_slice()
    }
}

/// The colour map, which a worker thread draws: either standing by with its bitmap, or
/// lent out to the thread that is drawing it.
pub enum MapVisual {
    StandBy(Bitmap),
    Drawing,
}

/// What a request to refresh the colour map leads to.
#[derive(Debug, Clone, Copy, PartialEq, Eq, Structural)]
pub enum MapStep {
    /// Show the bitmap and hand it to a new drawing thread.
    Launch,
    /// The drawing thread is done: take its bitmap back.
    Collect,
    /// The drawing thread is still busy: nothing to do yet.
    Wait,
}

impl MapVisual {
    /// A colour map standing by with a blank bitmap of `size`.
    pub fn new(size: (usize, usize)) -> (m: MapVisual)
        requires
            size.0 * size.1 <= usize::MAX,
        ensures
            m matches MapVisual::StandBy(b) && b@.0 == size && b@.1 == blank((size.0 * size.1) as nat),
    {
        MapVisual::StandBy(Bitmap::new(size))
    }

    /// Resizes the bitmap if it stands by; gives `false`, and changes nothing, while it is
    /// being drawn.
    pub fn try_set_size(&mut self, size: (usize, usize)) -> (done: bool)
        requires
            size.0 * size.1 <= usize::MAX,
        ensures
            done == (*old(self) is StandBy),
            !done ==> *final(self) is Drawing,
            done ==> (*final(self) matches MapVisual::StandBy(b)
                && b@.0 == size
                && b@.1 == resized(old(self)->StandBy_0@.1, (size.0 * size.1) as nat)),
    {
        match self {
            MapVisual::StandBy(b) => {
                b.set_size(size);
                true
            },
            MapVisual::Drawing => false,
        }
    }

    /// What a refresh leads to, `finished` telling whether the drawing thread, if any,
    /// has ended.
    pub fn next_step(&self, finished: bool) -> (step: MapStep)
        ensures
            step == match *self {
                MapVisual::StandBy(_) => MapStep::Launch,
                MapVisual::Drawing => if finished {
                    MapStep::Collect
                } else {
                    MapStep::Wait
                },
            },
    {
        match self {
            MapVisual::StandBy(_) => MapStep::Launch,
            MapVisual::Drawing => if finished {
                MapStep::Collect
            } else {
                MapStep::Wait
            },
        }
    }

    /// Lends the bitmap out for drawing; `None` if it is already lent out.
    pub fn start_drawing(&mut self) -> (lent: Option<Bitmap>)
        ensures
            *final(self) is Drawing,
            match *old(self) {
                MapVisual::StandBy(b) => lent == Some(b),
                MapVisual::Drawing => lent is None,
            },
    {
        let mut previous = MapVisual::Drawing;
        std::mem::swap(self, &mut previous);
        match previous {
            MapVisual::StandBy(b) => Some(b),
            MapVisual::Drawing => None,
        }
    }

    /// Takes the bitmap back from the drawing thread.
    pub fn finish_drawing(&mut self, bitmap: Bitmap)
        requires
            *old(self) is Drawing,
        ensures
            *final(self) == MapVisual::StandBy(bitmap),
    {
        *self = MapVisual::StandBy(bitmap);
    }
}

} // verus!
