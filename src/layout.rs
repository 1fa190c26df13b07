//! Placement of the displayed image inside the window.
//!
//! The image keeps its aspect ratio and sits below a fixed band reserved for
//! the title label. Every coordinate is an exact rational number: a rectangle
//! carries integer numerators over one positive common denominator, so no
//! rounding ever enters the layout.
use vstd::prelude::*;

verus! {

/// Height, in pixels, of the band above the image kept free for the title.
pub const TOP_SPACING: u32 = 100;

/// A rectangle whose coordinates are `left / denom`, `top / denom`,
/// `width / denom` and `height / denom` pixels.
#[derive(Clone, Copy, Debug, PartialEq, Eq)]
pub struct PlacedRect {
    pub left: i128,
    pub top: i128,
    pub width: i128,
    pub height: i128,
    pub denom: i128,
}

/// Window size and the size of the image on display.
#[derive(Clone, Copy, Debug)]
pub struct Layout {
    window_width: u32,
    window_height: u32,
    image_width: u32,
    image_height: u32,
}

/// Height left for the image below the title band; none when the window is
/// no taller than the band.
pub open spec fn available_height(window_height: int) -> int {
    if window_height > TOP_SPACING as int {
        window_height - TOP_SPACING as int
    } else {
        0
    }
}

/// The image, stretched to the available height, would be wider than the
/// window.
pub open spec fn too_narrow(ww: int, wh: int, iw: int, ih: int) -> bool {
    available_height(wh) * iw > ww * ih
}

/// `r` is where an `iw` by `ih` image goes in a `ww` by `wh` window.
///
/// When the image fits at the available height it takes that height, its
/// width follows from the aspect ratio and it is centred horizontally below
/// the band. When it does not, it takes the window's width, its height
/// follows from the aspect ratio and it is centred vertically in the space
/// below the band.
pub open spec fn is_placement(r: PlacedRect, ww: int, wh: int, iw: int, ih: int) -> bool {
    let ah = available_height(wh);
    if too_narrow(ww, wh, iw, ih) {
        &&& r.denom == 2 * iw
        &&& r.width == 2 * (ww * iw)
        &&& r.height == 2 * (ww * ih)
        &&& r.left == 0
        &&& r.top == (wh + TOP_SPACING as int) * iw - ww * ih
    } else {
        &&& r.denom == 2 * ih
        &&& r.width == 2 * (ah * iw)
        &&& r.height == 2 * (ah * ih)
        &&& r.left == ww * ih - ah * iw
        &&& r.top == 2 * (TOP_SPACING as int * ih)
    }
}

/// The placed image never overflows the window: its width is at most the
/// window's width and its height at most the window's height. When the window
/// is taller than the title band, the whole rectangle lies inside the window,
/// below the band.
pub proof fn lemma_rect_within_window(r: PlacedRect, ww: int, wh: int, iw: int, ih: int)
    requires
        ww >= 0,
        wh >= 0,
        iw > 0,
        ih > 0,
        is_placement(r, ww, wh, iw, ih),
    ensures
        r.denom > 0,
        0 <= r.width <= ww * r.denom,
        0 <= r.height <= wh * r.denom,
        wh >= TOP_SPACING as int ==> {
            &&& 0 <= r.left
            &&& r.left + r.width <= ww * r.denom
            &&& TOP_SPACING as int * r.denom <= r.top
            &&& r.top + r.height <= wh * r.denom
        },
{
    let ah = available_height(wh);
    let t = TOP_SPACING as int;
    assert(0 <= ah <= wh);
    if too_narrow(ww, wh, iw, ih) {
        assert(ww * ih < ah * iw);
        assert(0 <= ww * iw) by (nonlinear_arith)
            requires ww >= 0, iw > 0;
        assert(0 <= ww * ih) by (nonlinear_arith)
            requires ww >= 0, ih > 0;
        assert(ww * (2 * iw) == 2 * (ww * iw)) by (nonlinear_arith);
        assert(ah * iw <= wh * iw) by (nonlinear_arith)
            requires ah <= wh, iw > 0;
        assert(wh * (2 * iw) == 2 * (wh * iw)) by (nonlinear_arith);
        assert(t * (2 * iw) == 2 * (t * iw)) by (nonlinear_arith);
        assert((wh + t) * iw == wh * iw + t * iw) by (nonlinear_arith);
        if wh >= t {
            assert(ah * iw == wh * iw - t * iw) by (nonlinear_arith)
                requires ah == wh - t;
        }
    } else {
        assert(ah * iw <= ww * ih);
        assert(0 <= ah * iw) by (nonlinear_arith)
            requires ah >= 0, iw > 0;
        assert(0 <= ah * ih) by (nonlinear_arith)
            requires ah >= 0, ih > 0;
        assert(ww * (2 * ih) == 2 * (ww * ih)) by (nonlinear_arith);
        assert(ah * ih <= wh * ih) by (nonlinear_arith)
            requires ah <= wh, ih > 0;
        assert(wh * (2 * ih) == 2 * (wh * ih)) by (nonlinear_arith);
        assert(t * (2 * ih) == 2 * (t * ih)) by (nonlinear_arith);
        if wh >= t {
            assert(ah * ih == wh * ih - t * ih) by (nonlinear_arith)
                requires ah == wh - t;
        }
    }
}

/// The placed image keeps the aspect ratio of the source image exactly:
/// `width / height == iw / ih`, written without division.
pub proof fn lemma_rect_keeps_aspect(r: PlacedRect, ww: int, wh: int, iw: int, ih: int)
    requires
        ww >= 0,
        wh >= 0,
        iw > 0,
        ih > 0,
        is_placement(r, ww, wh, iw, ih),
    ensures
        r.width * ih == r.height * iw,
{
    let ah = available_height(wh);
    if too_narrow(ww, wh, iw, ih) {
        assert(2 * (ww * iw) * ih == 2 * (ww * ih) * iw) by (nonlinear_arith);
    } else {
        assert(2 * (ah * iw) * ih == 2 * (ah * ih) * iw) by (nonlinear_arith);
    }
}

impl Layout {
    /// The image dimensions are positive, so the aspect ratio is defined.
    pub open spec fn wf(&self) -> bool {
        self.spec_image_width() > 0 && self.spec_image_height() > 0
    }

    pub closed spec fn spec_window_width(&self) -> u32 {
        self.window_width
    }

    pub closed spec fn spec_window_height(&self) -> u32 {
        self.window_height
    }

    pub closed spec fn spec_image_width(&self) -> u32 {
        self.image_width
    }

    pub closed spec fn spec_image_height(&self) -> u32 {
        self.image_height
    }

    /// A layout for an `image_width` by `image_height` image in a window
    /// of the given size.
    pub fn new(window_width: u32, window_height: u32, image_width: u32, image_height: u32) -> (r: Layout)
        requires
            image_width > 0,
            image_height > 0,
        ensures
            r.wf(),
            r.spec_window_width() == window_width,
            r.spec_window_height() == window_height,
            r.spec_image_width() == image_width,
            r.spec_image_height() == image_height,
    {
        Layout { window_width, window_height, image_width, image_height }
    }

    pub fn window_width(&self) -> (r: u32)
        ensures
            r == self.spec_window_width(),
    {
        self.window_width
    }

    pub fn window_height(&self) -> (r: u32)
        ensures
            r == self.spec_window_height(),
    {
        self.window_height
    }

    pub fn image_width(&self) -> (r: u32)
        ensures
            r == self.spec_image_width(),
    {
        self.image_width
    }

    pub fn image_height(&self) -> (r: u32)
        ensures
            r == self.spec_image_height(),
    {
        self.image_height
    }

    /// Records a new window size; the image is unchanged.
    pub fn set_window_size(&mut self, width: u32, height: u32)
        ensures
            final(self).spec_window_width() == width,
            final(self).spec_window_height() == height,
            final(self).spec_image_width() == old(self).spec_image_width(),
            final(self).spec_image_height() == old(self).spec_image_height(),
    {
        self.window_width = width;
        self.window_height = height;
    }

    /// Records the size of a newly displayed image; the window is unchanged.
    pub fn set_image_size(&mut self, width: u32, height: u32)
        requires
            width > 0,
            height > 0,
        ensures
            final(self).wf(),
            final(self).spec_window_width() == old(self).spec_window_width(),
            final(self).spec_window_height() == old(self).spec_window_height(),
            final(self).spec_image_width() == width,
            final(self).spec_image_height() == height,
    {
        self.image_width = width;
        self.image_height = height;
    }

    /// Where the image goes in the window at the current sizes.
    pub fn compute_rect(&self) -> (r: PlacedRect)
        requires
            self.wf(),
        ensures
            is_placement(
                r,
                self.spec_window_width() as int,
                self.spec_window_height() as int,
                self.spec_image_width() as int,
                self.spec_image_height() as int,
            ),
    {
        let ww = self.window_width as i128;
        let wh = self.window_height as i128;
        let iw = self.image_width as i128;
        let ih = self.image_height as i128;
        let top = TOP_SPACING as i128;
        let ah: i128 = if wh > top {
            wh - top
        } else {
            0
        };
        assert(0 <= ah * iw <= 0xffff_ffff * 0xffff_ffff) by (nonlinear_arith)
            requires
                0 <= ah <= 0xffff_ffff,
                0 <= iw <= 0xffff_ffff,
        ;
        assert(0 <= ww * ih <= 0xffff_ffff * 0xffff_ffff) by (nonlinear_arith)
            requires
                0 <= ww <= 0xffff_ffff,
                0 <= ih <= 0xffff_ffff,
        ;
        assert(0 <= ww * iw <= 0xffff_ffff * 0xffff_ffff) by (nonlinear_arith)
            requires
                0 <= ww <= 0xffff_ffff,
                0 <= iw <= 0xffff_ffff,
        ;
        assert(0 <= ah * ih <= 0xffff_ffff * 0xffff_ffff) by (nonlinear_arith)
            requires
                0 <= ah <= 0xffff_ffff,
                0 <= ih <= 0xffff_ffff,
        ;
        assert(0 <= (wh + top) * iw <= 0x1_0000_0064 * 0xffff_ffff) by (nonlinear_arith)
            requires
                0 <= wh + top <= 0x1_0000_0064,
                0 <= iw <= 0xffff_ffff,
        ;
        if ah * iw > ww * ih {
            PlacedRect {
                left: 0,
                top: (wh + top) * iw - ww * ih,
                width: 2 * (ww * iw),
                height: 2 * (ww * ih),
                denom: 2 * iw,
            }
        } else {
            PlacedRect {
                left: ww * ih - ah * iw,
                top: 2 * (top * ih),
                width: 2 * (ah * iw),
                height: 2 * (ah * ih),
                denom: 2 * ih,
            }
        }
    }
}

} // verus!
