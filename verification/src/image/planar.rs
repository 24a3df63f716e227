use vstd::prelude::*;

use crate::error::Error;
use crate::image::loose::{covers, lemma_nested_unique, spec_loose_order, wide_mul, LooseLayoutOrder};

verus! {

/// Describes the order in which the color channels are stored in a channel-separated (i.e. not necessarily interleaved or planar) image.
#[derive(Copy, Clone, Debug, PartialEq, Eq, Structural)]
pub enum ChannelSeparatedLayoutOrder {
    ChannelRowColumn,
    ChannelColumnRow,
    RowChannelColumn,
    RowColumnChannel,
    ColumnChannelRow,
    ColumnRowChannel,
}

/// The storage order of a channel-separated image, if any: the order of the three dimensions
/// (channel, x, y), outermost first, in which every stride is positive and steps over the whole
/// span of the dimensions inside it.
///
/// The layout does not know how many channels it holds, so where the channel dimension lies inside
/// another, the outer stride is asked to step over one channel. In the names, `Row` is the x
/// dimension and `Column` the y dimension.
pub open spec fn spec_channel_separated_order(
    channel_stride: int,
    x_stride: int,
    y_stride: int,
    width: int,
    height: int,
) -> Option<ChannelSeparatedLayoutOrder> {
    let (cs, xs, ys) = (channel_stride, x_stride, y_stride);
    if cs <= 0 || xs <= 0 || ys <= 0 {
        None
    } else if covers(cs, xs, width) && covers(xs, ys, height) {
        Some(ChannelSeparatedLayoutOrder::ChannelRowColumn)
    } else if covers(cs, ys, height) && covers(ys, xs, width) {
        Some(ChannelSeparatedLayoutOrder::ChannelColumnRow)
    } else if covers(xs, cs, 1) && covers(cs, ys, height) {
        Some(ChannelSeparatedLayoutOrder::RowChannelColumn)
    } else if covers(xs, ys, height) && covers(ys, cs, 1) {
        Some(ChannelSeparatedLayoutOrder::RowColumnChannel)
    } else if covers(ys, cs, 1) && covers(cs, xs, width) {
        Some(ChannelSeparatedLayoutOrder::ColumnChannelRow)
    } else if covers(ys, xs, width) && covers(xs, cs, 1) {
        Some(ChannelSeparatedLayoutOrder::ColumnRowChannel)
    } else {
        None
    }
}

impl ChannelSeparatedLayoutOrder {
    /// Compute the layout order from the strides and dimensions of the image.
    pub fn compute(channel_stride: usize, x_stride: usize, y_stride: usize, width: u32, height: u32) -> (order:
        Option<Self>)
        ensures
            order == spec_channel_separated_order(
                channel_stride as int,
                x_stride as int,
                y_stride as int,
                width as int,
                height as int,
            ),
    {
        let cs = channel_stride as u128;
        let xs = x_stride as u128;
        let ys = y_stride as u128;
        if channel_stride == 0 || x_stride == 0 || y_stride == 0 {
            None
        } else if cs >= wide_mul(x_stride, width) && xs >= wide_mul(y_stride, height) {
            Some(Self::ChannelRowColumn)
        } else if cs >= wide_mul(y_stride, height) && ys >= wide_mul(x_stride, width) {
            Some(Self::ChannelColumnRow)
        } else if xs >= cs && cs >= wide_mul(y_stride, height) {
            Some(Self::RowChannelColumn)
        } else if xs >= wide_mul(y_stride, height) && ys >= cs {
            Some(Self::RowColumnChannel)
        } else if ys >= cs && cs >= wide_mul(x_stride, width) {
            Some(Self::ColumnChannelRow)
        } else if ys >= wide_mul(x_stride, width) && xs >= cs {
            Some(Self::ColumnRowChannel)
        } else {
            None
        }
    }
}

/// Describes the layout of a planar image, where each color channel of a pixel is not necessarily stored contiguously in memory, but instead is on its own plane in a 3rd dimension.
#[derive(Copy, Clone, Debug, PartialEq, Eq)]
pub struct ChannelSeparatedLayout {
    /// The width of the image.
    width: u32,
    /// The height of the image.
    height: u32,
    /// Add this stride to get to the next color channel for the same pixel.
    channel_stride: usize,
    /// Add this stride to get to the next pixel in the x-direction.
    x_stride: usize,
    /// Add this stride to get to the next pixel in the y-direction.
    y_stride: usize,
}

impl ChannelSeparatedLayout {
    /// The strides name one of the storage orders.
    #[verifier::type_invariant]
    closed spec fn inv(self) -> bool {
        spec_channel_separated_order(
            self.channel_stride as int,
            self.x_stride as int,
            self.y_stride as int,
            self.width as int,
            self.height as int,
        ) is Some
    }

    /// The width of the image.
    pub closed spec fn spec_width(&self) -> u32 {
        self.width
    }

    /// The height of the image.
    pub closed spec fn spec_height(&self) -> u32 {
        self.height
    }

    /// The stride between two channels of a pixel.
    pub closed spec fn spec_channel_stride(&self) -> usize {
        self.channel_stride
    }

    /// The stride between two pixels of a row.
    pub closed spec fn spec_x_stride(&self) -> usize {
        self.x_stride
    }

    /// The stride between two pixels of a column.
    pub closed spec fn spec_y_stride(&self) -> usize {
        self.y_stride
    }

    /// The buffer size the layout asks for, for pixels of `channels` channels.
    pub open spec fn spec_minimum_buffer_size(&self, channels: int) -> int {
        let a = self.spec_channel_stride() * channels;
        let b = self.spec_x_stride() * self.spec_height();
        let c = self.spec_y_stride() * self.spec_width();
        let ab = if a >= b {
            a
        } else {
            b
        };
        if ab >= c {
            ab
        } else {
            c
        }
    }

    /// The buffer index of color channel `channel` of the pixel at (x, y).
    pub open spec fn spec_color_channel_index(&self, x: int, y: int, channel: int) -> int {
        channel * self.spec_channel_stride() + x * self.spec_x_stride() + y * self.spec_y_stride()
    }

    /// Create a new planar layout.
    pub fn new(width: u32, height: u32, channel_stride: usize, x_stride: usize, y_stride: usize) -> (layout:
        Result<Self, Error>)
        ensures
            width == 0 ==> layout == Err::<Self, Error>(Error::ZeroWidth),
            width > 0 && height == 0 ==> layout == Err::<Self, Error>(Error::ZeroHeight),
            width > 0 && height > 0 && channel_stride == 0 ==> layout == Err::<Self, Error>(
                Error::ZeroChannelStride,
            ),
            width > 0 && height > 0 && channel_stride > 0 && x_stride == 0 ==> layout == Err::<
                Self,
                Error,
            >(Error::ZeroXStride),
            width > 0 && height > 0 && channel_stride > 0 && x_stride > 0 && y_stride == 0
                ==> layout == Err::<Self, Error>(Error::ZeroYStride),
            width > 0 && height > 0 && channel_stride > 0 && x_stride > 0 && y_stride > 0
                && spec_channel_separated_order(
                channel_stride as int,
                x_stride as int,
                y_stride as int,
                width as int,
                height as int,
            ) is None ==> layout == Err::<Self, Error>(Error::InvalidStrides),
            width > 0 && height > 0 && channel_stride > 0 && x_stride > 0 && y_stride > 0
                && spec_channel_separated_order(
                channel_stride as int,
                x_stride as int,
                y_stride as int,
                width as int,
                height as int,
            ) is Some ==> (layout matches Ok(l) && l.spec_width() == width && l.spec_height()
                == height && l.spec_channel_stride() == channel_stride && l.spec_x_stride()
                == x_stride && l.spec_y_stride() == y_stride),
            layout matches Ok(l) ==> forall|x1: int, y1: int, x2: int, y2: int|
                0 <= x1 < width && 0 <= y1 < height && 0 <= x2 < width && 0 <= y2 < height && (x1
                    != x2 || y1 != y2) ==> #[trigger] l.spec_color_channel_index(x1, y1, 0)
                    != #[trigger] l.spec_color_channel_index(x2, y2, 0),
    {
        // Check that it is well-formed
        if width == 0 {
            return Err(Error::ZeroWidth);
        }
        if height == 0 {
            return Err(Error::ZeroHeight);
        }
        if channel_stride == 0 {
            return Err(Error::ZeroChannelStride);
        }
        if x_stride == 0 {
            return Err(Error::ZeroXStride);
        }
        if y_stride == 0 {
            return Err(Error::ZeroYStride);
        }
        if ChannelSeparatedLayoutOrder::compute(channel_stride, x_stride, y_stride, width, height).is_none() {
            return Err(Error::InvalidStrides);
        }
        let layout = Self { width, height, channel_stride, x_stride, y_stride };
        proof {
            assert forall|x1: int, y1: int, x2: int, y2: int|
                0 <= x1 < width && 0 <= y1 < height && 0 <= x2 < width && 0 <= y2 < height && (x1
                    != x2 || y1 != y2) implies #[trigger] layout.spec_color_channel_index(x1, y1, 0)
                != #[trigger] layout.spec_color_channel_index(x2, y2, 0) by {
                lemma_pixels_start_apart(layout, x1, y1, x2, y2);
            }
        }
        Ok(layout)
    }

    /// Get the channel stride.
    pub fn channel_stride(&self) -> (stride: usize)
        ensures
            stride == self.spec_channel_stride(),
    {
        self.channel_stride
    }

    /// Get the x stride.
    pub fn x_stride(&self) -> (stride: usize)
        ensures
            stride == self.spec_x_stride(),
    {
        self.x_stride
    }

    /// Get the y stride.
    pub fn y_stride(&self) -> (stride: usize)
        ensures
            stride == self.spec_y_stride(),
    {
        self.y_stride
    }

    /// Get the layout storage order.
    fn order(&self) -> (order: ChannelSeparatedLayoutOrder)
        ensures
            Some(order) == spec_channel_separated_order(
                self.channel_stride as int,
                self.x_stride as int,
                self.y_stride as int,
                self.width as int,
                self.height as int,
            ),
    {
        proof {
            use_type_invariant(self);
        }
        ChannelSeparatedLayoutOrder::compute(
            self.channel_stride,
            self.x_stride,
            self.y_stride,
            self.width,
            self.height,
        ).expect("Computed layout should be valid since it was checked in the constructor")
    }

    /// The width of the image.
    pub fn width(&self) -> (width: u32)
        ensures
            width == self.spec_width(),
    {
        self.width
    }

    /// The height of the image.
    pub fn height(&self) -> (height: u32)
        ensures
            height == self.spec_height(),
    {
        self.height
    }

    /// The buffer size the layout asks for, for pixels of `channels` channels.
    pub fn minimum_buffer_size(&self, channels: usize) -> (size: usize)
        requires
            self.spec_minimum_buffer_size(channels as int) <= usize::MAX,
        ensures
            size == self.spec_minimum_buffer_size(channels as int),
    {
        proof {
            assert(self.channel_stride * channels <= 340282366920938463463374607431768211455)
                by (nonlinear_arith)
                requires
                    0 <= self.channel_stride <= 18446744073709551615,
                    0 <= channels <= 18446744073709551615,
            ;
        }
        let a = self.channel_stride as u128 * channels as u128;
        let b = wide_mul(self.x_stride, self.height);
        let c = wide_mul(self.y_stride, self.width);
        let ab = if a >= b {
            a
        } else {
            b
        };
        let largest = if ab >= c {
            ab
        } else {
            c
        };
        largest as usize
    }

    /// The buffer index of color channel `channel` of the pixel at (x, y).
    pub fn color_channel_index(&self, x: u32, y: u32, channel: usize) -> (index: usize)
        requires
            self.spec_color_channel_index(x as int, y as int, channel as int) <= usize::MAX,
        ensures
            index == self.spec_color_channel_index(x as int, y as int, channel as int),
    {
        proof {
            assert(0 <= channel * self.channel_stride && 0 <= x * self.x_stride && 0 <= y
                * self.y_stride) by (nonlinear_arith);
        }
        channel * self.channel_stride + x as usize * self.x_stride + y as usize * self.y_stride
    }
}

/// The loose storage order with the same name as a channel-separated one.
pub open spec fn loose_order_named(order: ChannelSeparatedLayoutOrder) -> LooseLayoutOrder {
    match order {
        ChannelSeparatedLayoutOrder::ChannelRowColumn => LooseLayoutOrder::ChannelRowColumn,
        ChannelSeparatedLayoutOrder::ChannelColumnRow => LooseLayoutOrder::ChannelColumnRow,
        ChannelSeparatedLayoutOrder::RowChannelColumn => LooseLayoutOrder::RowChannelColumn,
        ChannelSeparatedLayoutOrder::RowColumnChannel => LooseLayoutOrder::RowColumnChannel,
        ChannelSeparatedLayoutOrder::ColumnChannelRow => LooseLayoutOrder::ColumnChannelRow,
        ChannelSeparatedLayoutOrder::ColumnRowChannel => LooseLayoutOrder::ColumnRowChannel,
    }
}

/// For an image of one channel, the channel-separated storage order is the loose one: both are
/// absent together, and otherwise they have the same name.
pub proof fn lemma_orders_agree_for_one_channel(cs: int, xs: int, ys: int, width: int, height: int)
    ensures
        spec_channel_separated_order(cs, xs, ys, width, height) is None <==> spec_loose_order(
            1,
            cs,
            xs,
            ys,
            width,
            height,
        ) is None,
        spec_channel_separated_order(cs, xs, ys, width, height) matches Some(order) ==> spec_loose_order(
            1,
            cs,
            xs,
            ys,
            width,
            height,
        ) == Some(loose_order_named(order)),
{
}

/// In a channel-separated layout with a storage order, distinct pixels start at distinct samples.
pub proof fn lemma_pixels_start_apart(layout: ChannelSeparatedLayout, x1: int, y1: int, x2: int, y2: int)
    requires
        spec_channel_separated_order(
            layout.spec_channel_stride() as int,
            layout.spec_x_stride() as int,
            layout.spec_y_stride() as int,
            layout.spec_width() as int,
            layout.spec_height() as int,
        ) is Some,
        0 <= x1 < layout.spec_width(),
        0 <= y1 < layout.spec_height(),
        0 <= x2 < layout.spec_width(),
        0 <= y2 < layout.spec_height(),
        x1 != x2 || y1 != y2,
    ensures
        layout.spec_color_channel_index(x1, y1, 0) != layout.spec_color_channel_index(x2, y2, 0),
{
    let cs = layout.spec_channel_stride() as int;
    let xs = layout.spec_x_stride() as int;
    let ys = layout.spec_y_stride() as int;
    let w = layout.spec_width() as int;
    let h = layout.spec_height() as int;
    if layout.spec_color_channel_index(x1, y1, 0) == layout.spec_color_channel_index(x2, y2, 0) {
        assert(0 * cs == 0);
        match spec_channel_separated_order(cs, xs, ys, w, h).unwrap() {
            ChannelSeparatedLayoutOrder::ChannelRowColumn => {
                lemma_nested_unique(0, x1, y1, 0, x2, y2, cs, xs, ys, w, h);
            },
            ChannelSeparatedLayoutOrder::ChannelColumnRow => {
                lemma_nested_unique(0, y1, x1, 0, y2, x2, cs, ys, xs, h, w);
            },
            ChannelSeparatedLayoutOrder::RowChannelColumn => {
                lemma_nested_unique(x1, 0, y1, x2, 0, y2, xs, cs, ys, 1, h);
            },
            ChannelSeparatedLayoutOrder::RowColumnChannel => {
                lemma_nested_unique(x1, y1, 0, x2, y2, 0, xs, ys, cs, h, 1);
            },
            ChannelSeparatedLayoutOrder::ColumnChannelRow => {
                lemma_nested_unique(y1, 0, x1, y2, 0, x2, ys, cs, xs, 1, w);
            },
            ChannelSeparatedLayoutOrder::ColumnRowChannel => {
                lemma_nested_unique(y1, x1, 0, y2, x2, 0, ys, xs, cs, w, 1);
            },
        }
    }
}

} // verus!
