//! The bar-chart frame: one outlined bar per bucket, bottom-anchored, on a
//! black canvas.
use vstd::prelude::*;
use crate::buckets::MAGNITUDE_SCALE;

verus! {

/// The bucket value (in whole magnitude units) at which a bar reaches the
/// full frame height.
pub const BAR_MAX_HEIGHT: u64 = 200;

/// No bar is drawn shorter than this many pixels.
pub const MIN_BAR_HEIGHT: u64 = 5;

/// An axis-aligned rectangle in pixels; `y` grows downward from the top edge.
#[derive(Clone, Copy, Debug, PartialEq, Eq, Structural)]
pub struct Rect {
    pub x: usize,
    pub y: usize,
    pub width: usize,
    pub height: usize,
}

/// A raster frame: a black canvas of `width` by `height` pixels with each
/// rectangle of `bars` outlined in the foreground colour.
#[derive(Debug)]
pub struct Frame {
    pub width: usize,
    pub height: usize,
    pub bars: Vec<Rect>,
}

/// Width of each bar when `n` bars with `sep` pixels between neighbours share
/// `width` pixels.
pub open spec fn bar_width_spec(width: nat, n: nat, sep: nat) -> nat
    recommends
        n >= 1,
{
    ((width - (n - 1) * sep) / n as int) as nat
}

/// Height in pixels of the bar for bucket value `v` (fixed-point) in a frame
/// `height` pixels tall: `clamp(v + 1, 0, BAR_MAX_HEIGHT) * height /
/// BAR_MAX_HEIGHT`, rounded down and raised to at least `MIN_BAR_HEIGHT`.
pub open spec fn bar_height_spec(v: nat, height: nat) -> nat {
    let h = clamped_level(v) * height / full_level();
    if h < MIN_BAR_HEIGHT {
        MIN_BAR_HEIGHT as nat
    } else {
        h as nat
    }
}

/// The fixed-point bucket value at which a bar reaches the full frame height.
pub open spec fn full_level() -> int {
    BAR_MAX_HEIGHT * MAGNITUDE_SCALE
}

/// `v + 1` (in fixed point), held at `full_level()`.
pub open spec fn clamped_level(v: nat) -> int {
    if v + MAGNITUDE_SCALE > full_level() {
        full_level()
    } else {
        v + MAGNITUDE_SCALE
    }
}

/// The bar drawn for bucket `i` of value `v`.
pub open spec fn bar_rect(i: nat, v: nat, bar_width: nat, sep: nat, height: nat) -> Rect {
    let h = bar_height_spec(v, height);
    Rect {
        x: (i * (bar_width + sep)) as usize,
        y: (height - h) as usize,
        width: bar_width as usize,
        height: h as usize,
    }
}

/// Draws buckets as vertical bars in a frame of fixed resolution.
pub struct BarVisualizer {
    resolution: (usize, usize),
    bucket_separation: usize,
}

impl BarVisualizer {
    pub closed spec fn width_spec(&self) -> nat {
        self.resolution.0 as nat
    }

    pub closed spec fn height_spec(&self) -> nat {
        self.resolution.1 as nat
    }

    pub closed spec fn separation_spec(&self) -> nat {
        self.bucket_separation as nat
    }

    pub fn new(width: usize, height: usize, bucket_separation: usize) -> (r: BarVisualizer)
        ensures
            r.width_spec() == width,
            r.height_spec() == height,
            r.separation_spec() == bucket_separation,
    {
        BarVisualizer { resolution: (width, height), bucket_separation }
    }

    pub fn width(&self) -> (r: usize)
        ensures
            r == self.width_spec(),
    {
        self.resolution.0
    }

    pub fn height(&self) -> (r: usize)
        ensures
            r == self.height_spec(),
    {
        self.resolution.1
    }

    pub fn bucket_separation(&self) -> (r: usize)
        ensures
            r == self.separation_spec(),
    {
        self.bucket_separation
    }
}

/// A visual style: turns a snapshot of bucket values into a frame.
pub trait Visualizer: Sized {
    /// `n` buckets can be drawn.
    spec fn fits(&self, n: nat) -> bool;

    /// `f` is the frame this visualizer draws for `buckets`.
    spec fn is_frame_of(&self, buckets: Seq<u64>, f: Frame) -> bool;

    fn next_frame(&self, buckets: &Vec<u64>) -> (r: Frame)
        requires
            self.fits(buckets@.len()),
        ensures
            self.is_frame_of(buckets@, r),
    ;
}

impl Visualizer for BarVisualizer {
    /// `n` bars fit: at least one bar, the gaps fit within the width, and the
    /// frame is at least as tall as the shortest bar.
    open spec fn fits(&self, n: nat) -> bool {
        &&& n >= 1
        &&& (n - 1) * self.separation_spec() <= self.width_spec()
        &&& self.height_spec() >= MIN_BAR_HEIGHT
    }

    /// `f` is the frame for `buckets`: the full resolution, and bar `i` at
    /// `i * (bar width + separation)` from the left, bottom-anchored, as tall
    /// as `bar_height_spec` gives for bucket `i`.
    open spec fn is_frame_of(&self, buckets: Seq<u64>, f: Frame) -> bool {
        &&& f.width == self.width_spec()
        &&& f.height == self.height_spec()
        &&& f.bars@.len() == buckets.len()
        &&& forall|i: int|
            0 <= i < buckets.len() ==> f.bars@[i] == bar_rect(
                i as nat,
                buckets[i] as nat,
                bar_width_spec(self.width_spec(), buckets.len(), self.separation_spec()),
                self.separation_spec(),
                self.height_spec(),
            )
    }

    /// Lays out one bar per bucket, left to right in bucket order.
    fn next_frame(&self, buckets: &Vec<u64>) -> (r: Frame)
    {
        let n = buckets.len();
        let width = self.resolution.0;
        let height = self.resolution.1;
        let sep = self.bucket_separation;
        assert(((n - 1) as nat) * (sep as nat) <= width as nat);
        let gaps = (n - 1) * sep;
        let bar_width = (width - gaps) / n;
        let ghost bw = bar_width_spec(width as nat, n as nat, sep as nat);
        assert(bar_width == bw);
        proof {
            // the bars and gaps together fit in the width
            assert(n * bar_width <= width - gaps) by (nonlinear_arith)
                requires
                    bar_width == (width - gaps) / n as int,
                    n >= 1,
                    gaps <= width,
            ;
        }
        let mut bars: Vec<Rect> = Vec::new();
        let mut i: usize = 0;
        while i < n
            invariant
                n == buckets@.len(),
                n >= 1,
                i <= n,
                width == self.width_spec(),
                height == self.height_spec(),
                sep == self.separation_spec(),
                height >= MIN_BAR_HEIGHT,
                gaps == (n - 1) * sep,
                n * bar_width <= width - gaps,
                bar_width == bw,
                bars@.len() == i,
                forall|j: int|
                    0 <= j < i ==> bars@[j] == bar_rect(
                        j as nat,
                        buckets@[j] as nat,
                        bw,
                        sep as nat,
                        height as nat,
                    ),
            decreases n - i,
        {
            let v = buckets[i];
            let h = bar_height(v, height);
            let x: usize = if i == 0 {
                0
            } else {
                proof {
                    assert(bar_width + sep <= width && i * (bar_width + sep) <= width)
                        by (nonlinear_arith)
                        requires
                            1 <= i < n,
                            n * bar_width <= width - gaps,
                            gaps == (n - 1) * sep,
                            gaps <= width,
                    ;
                }
                i * (bar_width + sep)
            };
            bars.push(Rect { x, y: height - h, width: bar_width, height: h });
            i = i + 1;
        }
        Frame { width, height, bars }
    }
}

/// The height of one bar, as `bar_height_spec` gives it.
pub fn bar_height(v: u64, height: usize) -> (h: usize)
    requires
        height >= MIN_BAR_HEIGHT,
    ensures
        h == bar_height_spec(v as nat, height as nat),
        MIN_BAR_HEIGHT <= h <= height,
{
    let full: u64 = BAR_MAX_HEIGHT * MAGNITUDE_SCALE;
    let level: u64 = if v > full - MAGNITUDE_SCALE {
        full
    } else {
        v + MAGNITUDE_SCALE
    };
    proof {
        assert((level as int) * (height as int) <= 200000 * 0x1_0000_0000_0000_0000)
            by (nonlinear_arith)
            requires
                level <= 200000,
                height < 0x1_0000_0000_0000_0000,
        ;
    }
    let scaled: u128 = (level as u128) * (height as u128) / (full as u128);
    proof {
        assert(level as int * height as int / full as int <= height) by (nonlinear_arith)
            requires
                level <= full,
                full > 0,
        ;
        lemma_bar_height_clipped(v as nat, height as nat);
    }
    if scaled < MIN_BAR_HEIGHT as u128 {
        MIN_BAR_HEIGHT as usize
    } else {
        scaled as usize
    }
}

/// However large the bucket value, the bar is no taller than the frame.
pub proof fn lemma_bar_height_clipped(v: nat, height: nat)
    requires
        height >= MIN_BAR_HEIGHT,
    ensures
        MIN_BAR_HEIGHT <= bar_height_spec(v, height) <= height,
{
    let level = clamped_level(v);
    let full = full_level();
    assert(level * height / full <= height) by (nonlinear_arith)
        requires
            0 <= level <= full,
            full > 0,
            height >= 0,
    ;
}

/// A bucket at zero gives the minimum bar height in any frame under 1200
/// pixels tall; in taller frames the scaled height exceeds the minimum.
pub proof fn lemma_zero_bucket_min_height(height: nat)
    requires
        MIN_BAR_HEIGHT <= height < 1200,
    ensures
        bar_height_spec(0, height) == MIN_BAR_HEIGHT,
{
    let full = full_level();
    assert(clamped_level(0) == 1000);
    assert(1000 * (height as int) / full < 6) by (nonlinear_arith)
        requires
            0 <= height < 1200,
            full == 200000,
    ;
}

} // verus!
