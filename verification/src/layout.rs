use vstd::prelude::*;

use crate::image::loose::wide_mul;
use crate::util::{lemma_digits_unique, lemma_scale_injective, lemma_scaled_below};

verus! {

/// A strided image layout: where the pixel at (x, y) starts in a buffer.
#[derive(Copy, Clone, Debug, Default, PartialEq, Eq)]
pub struct ImageLayout {
    /// The width of the image.
    pub width: u32,
    /// The height of the image.
    pub height: u32,
    /// Add this stride to get to the next pixel in the x-direction.
    pub stride_x: usize,
    /// Add this stride to get to the next pixel in the y-direction.
    pub stride_y: usize,
}

impl ImageLayout {
    /// Rows lie one after the other: a row of pixels fits within one y stride.
    pub open spec fn spec_is_row_major(&self) -> bool {
        self.stride_y >= self.stride_x * self.width
    }

    /// Columns lie one after the other: a column of pixels fits within one x stride.
    pub open spec fn spec_is_column_major(&self) -> bool {
        self.stride_x >= self.stride_y * self.height
    }

    /// The layout is non-empty, it is row major or column major, and the stride along each
    /// dimension of more than one pixel is positive.
    pub open spec fn spec_is_well_formed(&self) -> bool {
        &&& self.width > 0
        &&& self.height > 0
        &&& (self.width > 1 ==> self.stride_x > 0)
        &&& (self.height > 1 ==> self.stride_y > 0)
        &&& (self.spec_is_row_major() || self.spec_is_column_major())
    }

    /// The buffer index at which the pixel at (x, y) starts.
    pub open spec fn spec_index(&self, x: int, y: int) -> int {
        x * self.stride_x + y * self.stride_y
    }

    /// Create a layout from its dimensions and strides.
    pub fn new(width: u32, height: u32, stride_x: usize, stride_y: usize) -> (layout: Self)
        ensures
            layout == (ImageLayout { width, height, stride_x, stride_y }),
    {
        ImageLayout { width, height, stride_x, stride_y }
    }

    /// A row-major layout with no padding between pixels or rows.
    pub fn row_major_packed(channels: usize, width: u32, height: u32) -> (layout: Self)
        requires
            channels * width <= usize::MAX,
        ensures
            layout == (ImageLayout {
                width,
                height,
                stride_x: channels,
                stride_y: (channels * width) as usize,
            }),
    {
        let stride_x = channels;
        let stride_y = channels * width as usize;

        Self::new(width, height, stride_x, stride_y)
    }

    /// A column-major layout with no padding between pixels or columns.
    pub fn column_major_packed(channels: usize, width: u32, height: u32) -> (layout: Self)
        requires
            channels * height <= usize::MAX,
        ensures
            layout == (ImageLayout {
                width,
                height,
                stride_x: (channels * height) as usize,
                stride_y: channels,
            }),
    {
        let stride_x = channels * height as usize;
        let stride_y = channels;

        Self::new(width, height, stride_x, stride_y)
    }

    /// Returns whether the image is non-empty and has no aliased pixels: its strides are positive and it is row major or column major.
    pub fn is_well_formed(&self) -> (well_formed: bool)
        ensures
            well_formed == self.spec_is_well_formed(),
            well_formed ==> self.width > 0 && self.height > 0,
            well_formed ==> forall|x1: int, y1: int, x2: int, y2: int|
                0 <= x1 < self.width && 0 <= y1 < self.height && 0 <= x2 < self.width && 0 <= y2
                    < self.height && (x1 != x2 || y1 != y2) ==> #[trigger] self.spec_index(x1, y1)
                    != #[trigger] self.spec_index(x2, y2),
    {
        proof {
            if self.spec_is_well_formed() {
                assert forall|x1: int, y1: int, x2: int, y2: int|
                    0 <= x1 < self.width && 0 <= y1 < self.height && 0 <= x2 < self.width && 0
                        <= y2 < self.height && (x1 != x2 || y1 != y2) implies #[trigger] self.spec_index(
                    x1,
                    y1,
                ) != #[trigger] self.spec_index(x2, y2) by {
                    lemma_well_formed_no_aliasing(*self, x1, y1, x2, y2);
                }
            }
        }
        self.width > 0 && self.height > 0 && (self.width == 1 || self.stride_x > 0) && (self.height
            == 1 || self.stride_y > 0) && (self.is_row_major() || self.is_column_major())
    }

    /// Returns whether a row of pixels fits within one y stride.
    pub fn is_row_major(&self) -> (row_major: bool)
        ensures
            row_major == self.spec_is_row_major(),
    {
        self.stride_y as u128 >= wide_mul(self.stride_x, self.width)
    }

    /// Returns whether a column of pixels fits within one x stride.
    pub fn is_column_major(&self) -> (column_major: bool)
        ensures
            column_major == self.spec_is_column_major(),
    {
        self.stride_x as u128 >= wide_mul(self.stride_y, self.height)
    }

    /// The stride between lines and the stride between pixels of a line, major first.
    pub fn major_minor_strides(&self) -> (strides: Option<(usize, usize)>)
        ensures
            self.spec_is_row_major() ==> strides == Some((self.stride_y, self.stride_x)),
            !self.spec_is_row_major() && self.spec_is_column_major() ==> strides == Some(
                (self.stride_x, self.stride_y),
            ),
            !self.spec_is_row_major() && !self.spec_is_column_major() ==> strides is None,
    {
        if self.is_row_major() {
            Some((self.stride_y, self.stride_x))
        } else if self.is_column_major() {
            Some((self.stride_x, self.stride_y))
        } else {
            None
        }
    }

    /// The number of lines and the number of pixels of a line, major first.
    pub fn major_minor_sidelengths(&self) -> (sides: Option<(u32, u32)>)
        ensures
            self.spec_is_row_major() ==> sides == Some((self.height, self.width)),
            !self.spec_is_row_major() && self.spec_is_column_major() ==> sides == Some(
                (self.width, self.height),
            ),
            !self.spec_is_row_major() && !self.spec_is_column_major() ==> sides is None,
    {
        if self.is_row_major() {
            Some((self.height, self.width))
        } else if self.is_column_major() {
            Some((self.width, self.height))
        } else {
            None
        }
    }

    /// The number of pixels inside the bounds of the image.
    pub fn total_visible_pixels(&self) -> (pixels: u32)
        requires
            self.width * self.height <= u32::MAX,
        ensures
            pixels == self.width * self.height,
    {
        self.width * self.height
    }

    /// The number of samples the strides span, padding included; `None` when the layout is neither row nor column major.
    pub fn total_padded_pixels(&self) -> (pixels: Option<usize>)
        requires
            self.spec_is_row_major() ==> self.stride_y * self.height <= usize::MAX,
            !self.spec_is_row_major() && self.spec_is_column_major() ==> self.stride_x * self.width
                <= usize::MAX,
        ensures
            self.spec_is_row_major() ==> pixels == Some((self.stride_y * self.height) as usize),
            !self.spec_is_row_major() && self.spec_is_column_major() ==> pixels == Some(
                (self.stride_x * self.width) as usize,
            ),
            !self.spec_is_row_major() && !self.spec_is_column_major() ==> pixels is None,
    {
        // Since we are using strides, can't just do width*height
        if self.is_row_major() {
            Some(self.stride_y * self.height as usize)
        } else if self.is_column_major() {
            Some(self.stride_x * self.width as usize)
        } else {
            // Cannot determine padded pixels
            None
        }
    }

    /// The buffer index at which the pixel at (x, y) starts.
    pub fn index(&self, x: u32, y: u32) -> (index: usize)
        requires
            x * self.stride_x + y * self.stride_y <= usize::MAX,
        ensures
            index == x * self.stride_x + y * self.stride_y,
    {
        proof {
            assert(0 <= x * self.stride_x && 0 <= y * self.stride_y) by (nonlinear_arith);
        }
        x as usize * self.stride_x + y as usize * self.stride_y
    }
}

/// In a well-formed layout, distinct pixels of the image start at distinct buffer indices.
pub proof fn lemma_well_formed_no_aliasing(layout: ImageLayout, x1: int, y1: int, x2: int, y2: int)
    requires
        layout.spec_is_well_formed(),
        0 <= x1 < layout.width,
        0 <= y1 < layout.height,
        0 <= x2 < layout.width,
        0 <= y2 < layout.height,
        x1 != x2 || y1 != y2,
    ensures
        layout.spec_index(x1, y1) != layout.spec_index(x2, y2),
{
    let sx = layout.stride_x as int;
    let sy = layout.stride_y as int;
    let w = layout.width as int;
    let h = layout.height as int;
    if layout.spec_index(x1, y1) == layout.spec_index(x2, y2) {
        if layout.spec_is_row_major() {
            if y1 == y2 {
                lemma_scale_injective(x1, x2, sx);
            } else {
                lemma_scaled_below(x1, w, sx);
                lemma_scaled_below(x2, w, sx);
                assert(w * sx == sx * w) by (nonlinear_arith);
                if sx == 0 {
                    assert(x1 * sx == 0 && x2 * sx == 0) by (nonlinear_arith)
                        requires
                            sx == 0,
                    ;
                }
                lemma_digits_unique(y1, x1 * sx, y2, x2 * sx, sy);
            }
        } else {
            if x1 == x2 {
                lemma_scale_injective(y1, y2, sy);
            } else {
                lemma_scaled_below(y1, h, sy);
                lemma_scaled_below(y2, h, sy);
                assert(h * sy == sy * h) by (nonlinear_arith);
                if sy == 0 {
                    assert(y1 * sy == 0 && y2 * sy == 0) by (nonlinear_arith)
                        requires
                            sy == 0,
                    ;
                }
                lemma_digits_unique(x1, y1 * sy, x2, y2 * sy, sx);
            }
        }
    }
}

/// A packed row-major layout is row major, and a packed column-major layout is column major; both are well formed when the image is not empty.
pub proof fn lemma_packed_layouts_are_major(channels: usize, width: u32, height: u32)
    requires
        channels * width <= usize::MAX,
        channels * height <= usize::MAX,
    ensures
        channels > 0 && width > 0 && height > 0 ==> (ImageLayout {
            width,
            height,
            stride_x: channels,
            stride_y: (channels * width) as usize,
        }).spec_is_well_formed() && (ImageLayout {
            width,
            height,
            stride_x: (channels * height) as usize,
            stride_y: channels,
        }).spec_is_well_formed(),
        (ImageLayout {
            width,
            height,
            stride_x: channels,
            stride_y: (channels * width) as usize,
        }).spec_is_row_major(),
        (ImageLayout {
            width,
            height,
            stride_x: (channels * height) as usize,
            stride_y: channels,
        }).spec_is_column_major(),
{
    if channels > 0 && width > 0 && height > 0 {
        assert(channels * width > 0 && channels * height > 0) by (nonlinear_arith)
            requires
                channels > 0,
                width > 0,
                height > 0,
        ;
    }
}

} // verus!
