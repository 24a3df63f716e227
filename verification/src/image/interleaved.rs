use vstd::prelude::*;

use crate::image::loose::wide_mul;

verus! {

/// The storage order of an interleaved image.
#[derive(Copy, Clone, Debug, PartialEq, Eq, Structural)]
pub enum InterleavedLayoutOrder {
    /// Rows are stored one after the other.
    RowMajor,
    /// Columns are stored one after the other.
    ColumnMajor,
}

/// Describes the layout of an interleaved image, where as opposed to planar, all channels are stored contiguously in memory.
#[derive(Copy, Clone, Debug, PartialEq, Eq)]
pub struct InterleavedLayout {
    /// The width of the image.
    pub width: u32,
    /// The height of the image.
    pub height: u32,
    /// Add this stride to get to the next pixel in the x-direction.
    pub stride_x: usize,
    /// Add this stride to get to the next pixel in the y-direction.
    pub stride_y: usize,
}

impl InterleavedLayout {
    /// The buffer index at which the pixel at (x, y) starts.
    pub open spec fn spec_pixel_index(&self, x: int, y: int) -> int {
        x * self.stride_x + y * self.stride_y
    }

    /// The size of buffer the layout asks for, for pixels of `channels` channels.
    pub open spec fn spec_minimum_buffer_size(&self, channels: int) -> int {
        let a = self.stride_x * self.height;
        let b = self.stride_y * self.width;
        (if a >= b {
            a
        } else {
            b
        }) * channels
    }

    /// The width of the image.
    pub fn width(&self) -> (width: u32)
        ensures
            width == self.width,
    {
        self.width
    }

    /// The height of the image.
    pub fn height(&self) -> (height: u32)
        ensures
            height == self.height,
    {
        self.height
    }

    /// The buffer size the layout asks for, for pixels of `channels` channels.
    pub fn minimum_buffer_size(&self, channels: usize) -> (size: usize)
        requires
            self.spec_minimum_buffer_size(channels as int) <= usize::MAX,
        ensures
            size == self.spec_minimum_buffer_size(channels as int),
    {
        let a = wide_mul(self.stride_x, self.height);
        let b = wide_mul(self.stride_y, self.width);
        let larger = if a >= b {
            a
        } else {
            b
        };
        if channels == 0 {
            proof {
                assert(self.spec_minimum_buffer_size(0) == 0) by (nonlinear_arith);
            }
            return 0;
        }
        proof {
            assert(larger <= larger * channels) by (nonlinear_arith)
                requires
                    channels >= 1,
                    larger >= 0,
            ;
        }
        larger as usize * channels
    }

    /// The buffer index of color channel `channel` of the pixel at (x, y).
    pub fn color_channel_index(&self, x: u32, y: u32, channel: usize) -> (index: usize)
        requires
            channel + self.spec_pixel_index(x as int, y as int) <= usize::MAX,
        ensures
            index == channel + self.spec_pixel_index(x as int, y as int),
    {
        channel + self.pixel_index(x, y)
    }

    /// The buffer index at which the pixel at (x, y) starts.
    pub fn pixel_index(&self, x: u32, y: u32) -> (index: usize)
        requires
            self.spec_pixel_index(x as int, y as int) <= usize::MAX,
        ensures
            index == self.spec_pixel_index(x as int, y as int),
    {
        proof {
            assert(0 <= x * self.stride_x && 0 <= y * self.stride_y) by (nonlinear_arith);
        }
        x as usize * self.stride_x + y as usize * self.stride_y
    }

    /// Returns whether a row of pixels fits within one y stride.
    pub fn is_row_major(&self) -> (row_major: bool)
        ensures
            row_major == (self.stride_y >= self.stride_x * self.width),
    {
        self.stride_y as u128 >= wide_mul(self.stride_x, self.width)
    }

    /// Returns whether a column of pixels fits within one x stride.
    pub fn is_column_major(&self) -> (column_major: bool)
        ensures
            column_major == (self.stride_x >= self.stride_y * self.height),
    {
        self.stride_x as u128 >= wide_mul(self.stride_y, self.height)
    }
}

} // verus!
