use vstd::prelude::*;

use crate::error::Error;
use crate::image::interleaved::InterleavedLayoutOrder;
use crate::image::packed::{PackedLayout, lemma_packed_layout_facts, packed_pixel_index};
use crate::image::GenericImage;
use crate::traits::{
    ChannelShrinkable, Color, ImageLayout, ImageView, ImageViewMut, InterleavedImageLayout,
    pixels_disjoint,
};
use crate::util::{lemma_digits_unique, lemma_scale_injective, lemma_scaled_below};

verus! {

/// Describes the order in which the color channels are not stored contigously in memory.
#[derive(Copy, Clone, Debug, PartialEq, Eq, Structural)]
pub enum LooseLayoutOrder {
    ChannelRowColumn,
    ChannelColumnRow,
    RowChannelColumn,
    RowColumnChannel,
    ColumnChannelRow,
    ColumnRowChannel,
}

/// The outer stride `outer` steps over the whole span of an inner dimension of `count` positions `inner` apart.
pub open spec fn covers(outer: int, inner: int, count: int) -> bool {
    outer >= inner * count
}

/// The storage order of a strided image, if any: the order of the three dimensions (channel, x,
/// y), outermost first, in which every stride is positive and steps over the whole span of the
/// dimensions inside it.
///
/// In the names, `Channel` is the channel dimension, `Row` the x dimension (stepping along a row)
/// and `Column` the y dimension (stepping along a column).
pub open spec fn spec_loose_order(
    channels: int,
    channel_stride: int,
    x_stride: int,
    y_stride: int,
    width: int,
    height: int,
) -> Option<LooseLayoutOrder> {
    let (cs, xs, ys) = (channel_stride, x_stride, y_stride);
    if cs <= 0 || xs <= 0 || ys <= 0 {
        None
    } else if covers(cs, xs, width) && covers(xs, ys, height) {
        Some(LooseLayoutOrder::ChannelRowColumn)
    } else if covers(cs, ys, height) && covers(ys, xs, width) {
        Some(LooseLayoutOrder::ChannelColumnRow)
    } else if covers(xs, cs, channels) && covers(cs, ys, height) {
        Some(LooseLayoutOrder::RowChannelColumn)
    } else if covers(xs, ys, height) && covers(ys, cs, channels) {
        Some(LooseLayoutOrder::RowColumnChannel)
    } else if covers(ys, cs, channels) && covers(cs, xs, width) {
        Some(LooseLayoutOrder::ColumnChannelRow)
    } else if covers(ys, xs, width) && covers(xs, cs, channels) {
        Some(LooseLayoutOrder::ColumnRowChannel)
    } else {
        None
    }
}

/// One past the largest sample index of a strided image; zero when the image has no samples.
pub open spec fn loose_extent(
    channels: int,
    width: int,
    height: int,
    channel_stride: int,
    x_stride: int,
    y_stride: int,
) -> int {
    if channels == 0 || width == 0 || height == 0 {
        0
    } else {
        (channels - 1) * channel_stride + (width - 1) * x_stride + (height - 1) * y_stride + 1
    }
}

/// `stride * count` computed without overflow.
pub(crate) fn wide_mul(stride: usize, count: u32) -> (product: u128)
    ensures
        product == stride * count,
{
    assert(stride * count <= u128::MAX) by (nonlinear_arith)
        requires
            stride <= usize::MAX,
            count <= u32::MAX,
            usize::MAX <= u64::MAX,
    ;
    stride as u128 * count as u128
}

/// `stride * count` computed without overflow.
pub(crate) fn wide_span(stride: usize, count: usize) -> (product: u128)
    ensures
        product == stride * count,
{
    assert(stride * count <= u128::MAX) by (nonlinear_arith)
        requires
            stride <= usize::MAX,
            count <= usize::MAX,
            usize::MAX <= u64::MAX,
    ;
    stride as u128 * count as u128
}

impl LooseLayoutOrder {
    /// Compute the layout order from the strides and dimensions of the image.
    pub fn compute(
        channels: usize,
        channel_stride: usize,
        x_stride: usize,
        y_stride: usize,
        width: u32,
        height: u32,
    ) -> (order: Option<Self>)
        ensures
            order == spec_loose_order(
                channels as int,
                channel_stride as int,
                x_stride as int,
                y_stride as int,
                width as int,
                height as int,
            ),
    {
        let cs = channel_stride as u128;
        let xs = x_stride as u128;
        let ys = y_stride as u128;
        if channel_stride == 0 || x_stride == 0 || y_stride == 0 {
            None
        } else if cs >= wide_mul(x_stride, width) && xs >= wide_mul(y_stride, height) {
            Some(Self::ChannelRowColumn)
        } else if cs >= wide_mul(y_stride, height) && ys >= wide_mul(x_stride, width) {
            Some(Self::ChannelColumnRow)
        } else if xs >= wide_span(channel_stride, channels) && cs >= wide_mul(y_stride, height) {
            Some(Self::RowChannelColumn)
        } else if xs >= wide_mul(y_stride, height) && ys >= wide_span(channel_stride, channels) {
            Some(Self::RowColumnChannel)
        } else if ys >= wide_span(channel_stride, channels) && cs >= wide_mul(x_stride, width) {
            Some(Self::ColumnChannelRow)
        } else if ys >= wide_mul(x_stride, width) && xs >= wide_span(channel_stride, channels) {
            Some(Self::ColumnRowChannel)
        } else {
            None
        }
    }
}

/// Three nested positions `a`, `b`, `c` with strides in which each stride steps over the whole
/// span of the dimensions inside it are determined by the sample index they give.
pub proof fn lemma_nested_unique(
    a1: int,
    b1: int,
    c1: int,
    a2: int,
    b2: int,
    c2: int,
    sa: int,
    sb: int,
    sc: int,
    nb: int,
    nc: int,
)
    requires
        sc > 0,
        covers(sb, sc, nc),
        covers(sa, sb, nb),
        0 <= b1 < nb,
        0 <= b2 < nb,
        0 <= c1 < nc,
        0 <= c2 < nc,
        a1 * sa + b1 * sb + c1 * sc == a2 * sa + b2 * sb + c2 * sc,
    ensures
        a1 == a2,
        b1 == b2,
        c1 == c2,
{
    assert(sc * nc == nc * sc && sb * nb == nb * sb) by (nonlinear_arith);
    lemma_scaled_below(c1, nc, sc);
    lemma_scaled_below(c2, nc, sc);
    assert(sb > 0);
    lemma_scaled_below(b1, nb, sb);
    lemma_scaled_below(b2, nb, sb);
    lemma_digits_unique(a1, b1 * sb + c1 * sc, a2, b2 * sb + c2 * sc, sa);
    lemma_digits_unique(b1, c1 * sc, b2, c2 * sc, sb);
    lemma_scale_injective(c1, c2, sc);
}

/// In a strided image with a storage order, distinct (x, y, channel) positions in bounds have
/// distinct sample indices.
pub proof fn lemma_loose_order_unique(
    channels: int,
    cs: int,
    xs: int,
    ys: int,
    width: int,
    height: int,
    x1: int,
    y1: int,
    c1: int,
    x2: int,
    y2: int,
    c2: int,
)
    requires
        spec_loose_order(channels, cs, xs, ys, width, height) is Some,
        0 <= x1 < width,
        0 <= y1 < height,
        0 <= c1 < channels,
        0 <= x2 < width,
        0 <= y2 < height,
        0 <= c2 < channels,
        x1 != x2 || y1 != y2 || c1 != c2,
    ensures
        c1 * cs + x1 * xs + y1 * ys != c2 * cs + x2 * xs + y2 * ys,
{
    if c1 * cs + x1 * xs + y1 * ys == c2 * cs + x2 * xs + y2 * ys {
        match spec_loose_order(channels, cs, xs, ys, width, height).unwrap() {
            LooseLayoutOrder::ChannelRowColumn => {
                lemma_nested_unique(c1, x1, y1, c2, x2, y2, cs, xs, ys, width, height);
            },
            LooseLayoutOrder::ChannelColumnRow => {
                lemma_nested_unique(c1, y1, x1, c2, y2, x2, cs, ys, xs, height, width);
            },
            LooseLayoutOrder::RowChannelColumn => {
                lemma_nested_unique(x1, c1, y1, x2, c2, y2, xs, cs, ys, channels, height);
            },
            LooseLayoutOrder::RowColumnChannel => {
                lemma_nested_unique(x1, y1, c1, x2, y2, c2, xs, ys, cs, height, channels);
            },
            LooseLayoutOrder::ColumnChannelRow => {
                lemma_nested_unique(y1, c1, x1, y2, c2, x2, ys, cs, xs, channels, width);
            },
            LooseLayoutOrder::ColumnRowChannel => {
                lemma_nested_unique(y1, x1, c1, y2, x2, c2, ys, xs, cs, width, channels);
            },
        }
    }
}

/// Describes the layout of a loose-layout image, where the color channels are not necessarily stored contiguously in memory. This is a generalization of the interleaved layout and can be used for planar or other layouts.
#[derive(Copy, Clone, Debug, PartialEq, Eq)]
pub struct LooseLayout {
    /// The number of color channels in the image.
    channels: usize,
    /// The width of the image.
    width: u32,
    /// The height of the image.
    height: u32,
    /// Add this stride to get to the next color channel for the same pixel.
    channel_stride: usize,
    /// Add this stride to get to the next pixel in the x-direction.
    x_stride: usize,
    /// Add this stride to get to the next pixel in the y-direction.
    y_stride: usize,
}

/// `count * stride` for counts and strides that bound `index * stride` from above.
proof fn lemma_scaled_le(index: int, count: int, stride: int)
    requires
        0 <= index < count,
        stride >= 0,
    ensures
        0 <= index * stride <= (count - 1) * stride,
{
    assert(0 <= index * stride <= (count - 1) * stride) by (nonlinear_arith)
        requires
            0 <= index <= count - 1,
            stride >= 0,
    ;
}

impl LooseLayout {
    /// The invariant of a loose layout: distinct channels have distinct indices, and every sample index fits in a `usize`.
    #[verifier::type_invariant]
    closed spec fn inv(self) -> bool {
        &&& self.channel_stride > 0
        &&& spec_loose_order(
            self.channels as int,
            self.channel_stride as int,
            self.x_stride as int,
            self.y_stride as int,
            self.width as int,
            self.height as int,
        ) is Some
        &&& self.extent() <= usize::MAX
    }

    /// One past the largest sample index of the layout.
    closed spec fn extent(self) -> int {
        loose_extent(
            self.channels as int,
            self.width as int,
            self.height as int,
            self.channel_stride as int,
            self.x_stride as int,
            self.y_stride as int,
        )
    }

    /// The stride between two channels of a pixel.
    pub closed spec fn spec_channel_stride(&self) -> usize {
        self.channel_stride
    }

    /// The stride between two pixels of a row.
    pub closed spec fn spec_x_stride(&self) -> usize {
        self.x_stride
    }

    /// The stride between two pixels of a column.
    pub closed spec fn spec_y_stride(&self) -> usize {
        self.y_stride
    }

    /// `extent` computed with overflow detection.
    fn checked_extent(
        channels: usize,
        width: u32,
        height: u32,
        channel_stride: usize,
        x_stride: usize,
        y_stride: usize,
    ) -> (extent: Option<usize>)
        requires
            channels > 0,
            width > 0,
            height > 0,
        ensures
            extent matches Some(e) ==> e == loose_extent(
                channels as int,
                width as int,
                height as int,
                channel_stride as int,
                x_stride as int,
                y_stride as int,
            ),
            extent is None ==> loose_extent(
                channels as int,
                width as int,
                height as int,
                channel_stride as int,
                x_stride as int,
                y_stride as int,
            ) > usize::MAX,
    {
        proof {
            assert((channels - 1) * channel_stride <= 340282366920938463463374607431768211455) by (nonlinear_arith)
                requires
                    0 <= channels - 1 <= 18446744073709551615,
                    0 <= channel_stride <= 18446744073709551615,
            ;
            assert((width - 1) * x_stride <= 340282366920938463463374607431768211455) by (nonlinear_arith)
                requires
                    0 <= width - 1 <= 18446744073709551615,
                    0 <= x_stride <= 18446744073709551615,
            ;
            assert((height - 1) * y_stride <= 340282366920938463463374607431768211455) by (nonlinear_arith)
                requires
                    0 <= height - 1 <= 18446744073709551615,
                    0 <= y_stride <= 18446744073709551615,
            ;
            assert(0 <= (channels - 1) * channel_stride) by (nonlinear_arith)
                requires
                    0 <= channels - 1,
                    0 <= channel_stride,
            ;
            assert(0 <= (width - 1) * x_stride) by (nonlinear_arith)
                requires
                    0 <= width - 1,
                    0 <= x_stride,
            ;
            assert(0 <= (height - 1) * y_stride) by (nonlinear_arith)
                requires
                    0 <= height - 1,
                    0 <= y_stride,
            ;
        }
        let c = (channels - 1) as u128 * channel_stride as u128;
        let x = (width - 1) as u128 * x_stride as u128;
        let y = (height - 1) as u128 * y_stride as u128;
        let max = usize::MAX as u128;
        if c > max || x > max || y > max {
            return None;
        }
        let total = c + x + y + 1;
        if total > max {
            None
        } else {
            Some(total as usize)
        }
    }

    /// Create a new loose layout.
    pub fn new(
        channels: usize,
        width: u32,
        height: u32,
        channel_stride: usize,
        x_stride: usize,
        y_stride: usize,
    ) -> (layout: Result<Self, Error>)
        ensures
            channels == 0 ==> layout == Err::<Self, Error>(Error::ZeroChannels),
            channels > 0 && width == 0 ==> layout == Err::<Self, Error>(Error::ZeroWidth),
            channels > 0 && width > 0 && height == 0 ==> layout == Err::<Self, Error>(
                Error::ZeroHeight,
            ),
            channels > 0 && width > 0 && height > 0 && channel_stride == 0 ==> layout == Err::<
                Self,
                Error,
            >(Error::ZeroChannelStride),
            channels > 0 && width > 0 && height > 0 && channel_stride > 0 && x_stride == 0
                ==> layout == Err::<Self, Error>(Error::ZeroXStride),
            channels > 0 && width > 0 && height > 0 && channel_stride > 0 && x_stride > 0
                && y_stride == 0 ==> layout == Err::<Self, Error>(Error::ZeroYStride),
            channels > 0 && width > 0 && height > 0 && channel_stride > 0 && x_stride > 0
                && y_stride > 0 && spec_loose_order(
                channels as int,
                channel_stride as int,
                x_stride as int,
                y_stride as int,
                width as int,
                height as int,
            ) is None ==> layout == Err::<Self, Error>(Error::InvalidStrides),
            channels > 0 && width > 0 && height > 0 && channel_stride > 0 && x_stride > 0
                && y_stride > 0 && spec_loose_order(
                channels as int,
                channel_stride as int,
                x_stride as int,
                y_stride as int,
                width as int,
                height as int,
            ) is Some && loose_extent(
                channels as int,
                width as int,
                height as int,
                channel_stride as int,
                x_stride as int,
                y_stride as int,
            ) > usize::MAX ==> layout == Err::<Self, Error>(Error::LayoutTooLarge),
            layout matches Ok(l) ==> {
                &&& l.spec_channels() == channels
                &&& l.spec_width() == width
                &&& l.spec_height() == height
                &&& l.spec_channel_stride() == channel_stride
                &&& l.spec_x_stride() == x_stride
                &&& l.spec_y_stride() == y_stride
                &&& forall|x1: int, y1: int, c1: int, x2: int, y2: int, c2: int|
                    0 <= x1 < width && 0 <= y1 < height && 0 <= c1 < channels && 0 <= x2 < width
                        && 0 <= y2 < height && 0 <= c2 < channels && (x1 != x2 || y1 != y2 || c1
                        != c2) ==> #[trigger] l.spec_component_index(x1, y1, c1)
                        != #[trigger] l.spec_component_index(x2, y2, c2)
            },
            channels > 0 && width > 0 && height > 0 && channel_stride > 0 && x_stride > 0
                && y_stride > 0 && spec_loose_order(
                channels as int,
                channel_stride as int,
                x_stride as int,
                y_stride as int,
                width as int,
                height as int,
            ) is Some && loose_extent(
                channels as int,
                width as int,
                height as int,
                channel_stride as int,
                x_stride as int,
                y_stride as int,
            ) <= usize::MAX ==> layout is Ok,
    {
        if channels == 0 {
            return Err(Error::ZeroChannels);
        }
        if width == 0 {
            return Err(Error::ZeroWidth);
        }
        if height == 0 {
            return Err(Error::ZeroHeight);
        }
        if channel_stride == 0 {
            return Err(Error::ZeroChannelStride);
        }
        if x_stride == 0 {
            return Err(Error::ZeroXStride);
        }
        if y_stride == 0 {
            return Err(Error::ZeroYStride);
        }
        if LooseLayoutOrder::compute(channels, channel_stride, x_stride, y_stride, width, height).is_none() {
            return Err(Error::InvalidStrides);
        }
        if Self::checked_extent(channels, width, height, channel_stride, x_stride, y_stride).is_none() {
            return Err(Error::LayoutTooLarge);
        }
        let layout = Self { channels, width, height, channel_stride, x_stride, y_stride };
        proof {
            assert forall|x1: int, y1: int, c1: int, x2: int, y2: int, c2: int|
                0 <= x1 < width && 0 <= y1 < height && 0 <= c1 < channels && 0 <= x2 < width && 0
                    <= y2 < height && 0 <= c2 < channels && (x1 != x2 || y1 != y2 || c1 != c2)
                    implies #[trigger] layout.spec_component_index(x1, y1, c1)
                != #[trigger] layout.spec_component_index(x2, y2, c2) by {
                layout.lemma_no_aliasing(x1, y1, c1, x2, y2, c2);
            }
        }
        Ok(layout)
    }

    /// Get the channel stride.
    pub fn channel_stride(&self) -> (stride: usize)
        ensures
            stride == self.spec_channel_stride(),
    {
        self.channel_stride
    }

    /// Get the x stride.
    pub fn x_stride(&self) -> (stride: usize)
        ensures
            stride == self.spec_x_stride(),
    {
        self.x_stride
    }

    /// Get the y stride.
    pub fn y_stride(&self) -> (stride: usize)
        ensures
            stride == self.spec_y_stride(),
    {
        self.y_stride
    }

    /// Get the layout storage order.
    pub fn order(&self) -> (order: LooseLayoutOrder)
        ensures
            Some(order) == spec_loose_order(
                self.spec_channels() as int,
                self.spec_channel_stride() as int,
                self.spec_x_stride() as int,
                self.spec_y_stride() as int,
                self.spec_width() as int,
                self.spec_height() as int,
            ),
    {
        proof {
            use_type_invariant(self);
        }
        LooseLayoutOrder::compute(
            self.channels,
            self.channel_stride,
            self.x_stride,
            self.y_stride,
            self.width,
            self.height,
        ).expect("Computed layout should be valid since it was checked in the constructor")
    }

    /// The sample index of channel `channel` of the pixel at (x, y), in terms of the strides.
    pub proof fn lemma_component_index(&self, x: int, y: int, channel: int)
        ensures
            self.spec_component_index(x, y, channel) == channel * self.spec_channel_stride() + x
                * self.spec_x_stride() + y * self.spec_y_stride(),
    {
    }

    /// A well-formed loose layout aliases no samples: distinct (x, y, channel) positions in bounds have distinct sample indices.
    pub proof fn lemma_no_aliasing(&self, x1: int, y1: int, c1: int, x2: int, y2: int, c2: int)
        requires
            self.wf(),
            0 <= x1 < self.spec_width(),
            0 <= y1 < self.spec_height(),
            0 <= c1 < self.spec_channels(),
            0 <= x2 < self.spec_width(),
            0 <= y2 < self.spec_height(),
            0 <= c2 < self.spec_channels(),
            x1 != x2 || y1 != y2 || c1 != c2,
        ensures
            self.spec_component_index(x1, y1, c1) != self.spec_component_index(x2, y2, c2),
    {
        lemma_loose_order_unique(
            self.channels as int,
            self.channel_stride as int,
            self.x_stride as int,
            self.y_stride as int,
            self.width as int,
            self.height as int,
            x1,
            y1,
            c1,
            x2,
            y2,
            c2,
        );
    }
}

impl ImageLayout for LooseLayout {
    closed spec fn wf(&self) -> bool {
        self.inv()
    }

    closed spec fn spec_channels(&self) -> usize {
        self.channels
    }

    closed spec fn spec_width(&self) -> u32 {
        self.width
    }

    closed spec fn spec_height(&self) -> u32 {
        self.height
    }

    closed spec fn spec_minimum_buffer_size(&self) -> nat {
        self.extent() as nat
    }

    closed spec fn spec_component_index(&self, x: int, y: int, channel: int) -> int {
        channel * self.channel_stride + x * self.x_stride + y * self.y_stride
    }

    proof fn lemma_component_index_bounds(&self, x: int, y: int, channel: int) {
        assert(self.inv());
        assert(self.spec_minimum_buffer_size() == self.extent());
        assert(self.channels > 0 && self.width > 0 && self.height > 0);
        lemma_scaled_le(channel, self.channels as int, self.channel_stride as int);
        lemma_scaled_le(x, self.width as int, self.x_stride as int);
        lemma_scaled_le(y, self.height as int, self.y_stride as int);
    }

    proof fn lemma_channel_indices_distinct(&self, x: int, y: int, c1: int, c2: int) {
        assert(self.inv());
        let cs = self.channel_stride as int;
        assert(c1 * cs != c2 * cs) by (nonlinear_arith)
            requires
                c1 != c2,
                cs > 0,
        ;
    }

    fn channels(&self) -> (channels: usize) {
        proof {
            use_type_invariant(self);
            assert(self.wf());
        }
        self.channels
    }

    fn width(&self) -> (width: u32) {
        proof {
            use_type_invariant(self);
            assert(self.wf());
        }
        self.width
    }

    fn height(&self) -> (height: u32) {
        proof {
            use_type_invariant(self);
            assert(self.wf());
        }
        self.height
    }

    fn minimum_buffer_size(&self) -> (size: usize) {
        proof {
            use_type_invariant(self);
            assert(self.wf());
        }
        if self.channels == 0 || self.width == 0 || self.height == 0 {
            return 0;
        }
        proof {
            lemma_scaled_le(0, self.channels as int, self.channel_stride as int);
            lemma_scaled_le(0, self.width as int, self.x_stride as int);
            lemma_scaled_le(0, self.height as int, self.y_stride as int);
        }
        (self.channels - 1) * self.channel_stride + (self.width - 1) as usize * self.x_stride + (
        self.height - 1) as usize * self.y_stride + 1
    }

    fn component_index_unchecked(&self, x: u32, y: u32, channel: usize) -> (index: usize) {
        proof {
            use_type_invariant(self);
            assert(self.wf());
            self.lemma_component_index_bounds(x as int, y as int, channel as int);
            lemma_scaled_le(channel as int, self.channels as int, self.channel_stride as int);
            lemma_scaled_le(x as int, self.width as int, self.x_stride as int);
            lemma_scaled_le(y as int, self.height as int, self.y_stride as int);
        }
        channel * self.channel_stride + x as usize * self.x_stride + y as usize * self.y_stride
    }
}

impl LooseLayout {
    /// The loose layout that addresses the samples of a packed layout.
    pub closed spec fn spec_from_packed(value: PackedLayout) -> LooseLayout {
        let c = value.spec_channels();
        let w = value.spec_width();
        let h = value.spec_height();
        match value.spec_order() {
            InterleavedLayoutOrder::RowMajor => LooseLayout {
                channels: c,
                width: w,
                height: h,
                channel_stride: 1,
                x_stride: c,
                y_stride: (w * c) as usize,
            },
            InterleavedLayoutOrder::ColumnMajor => LooseLayout {
                channels: c,
                width: w,
                height: h,
                channel_stride: 1,
                x_stride: (h * c) as usize,
                y_stride: c,
            },
        }
    }
}

impl LooseLayout {
    /// The strides of a packed layout seen as a loose layout.
    pub proof fn lemma_from_packed_strides(value: PackedLayout)
        requires
            value.wf(),
        ensures
            ({
                let l = LooseLayout::spec_from_packed(value);
                let c = value.spec_channels();
                let w = value.spec_width();
                let h = value.spec_height();
                &&& l.spec_channel_stride() == 1
                &&& value.spec_order() == InterleavedLayoutOrder::RowMajor ==> l.spec_x_stride()
                    == c && l.spec_y_stride() == w * c
                &&& value.spec_order() == InterleavedLayoutOrder::ColumnMajor ==> l.spec_x_stride()
                    == h * c && l.spec_y_stride() == c
            }),
    {
        lemma_from_packed_layout(value);
        lemma_packed_layout_facts(value);
        let c = value.spec_channels() as int;
        let w = value.spec_width() as int;
        let h = value.spec_height() as int;
        assert(w * c <= w * h * c && h * c <= w * h * c) by (nonlinear_arith)
            requires
                w >= 1,
                h >= 1,
                c >= 1,
        ;
    }
}

/// Seen as a loose layout, a packed layout keeps its size, its samples and their places.
pub proof fn lemma_from_packed_layout(value: PackedLayout)
    requires
        value.wf(),
    ensures
        ({
            let l = LooseLayout::spec_from_packed(value);
            &&& l.wf()
            &&& l.spec_channels() == value.spec_channels()
            &&& l.spec_width() == value.spec_width()
            &&& l.spec_height() == value.spec_height()
            &&& l.spec_minimum_buffer_size() == value.spec_minimum_buffer_size()
            &&& forall|x: int, y: int, c: int|
                0 <= x < value.spec_width() && 0 <= y < value.spec_height() && 0 <= c
                    < value.spec_channels() ==> #[trigger] l.spec_component_index(x, y, c)
                    == value.spec_component_index(x, y, c)
        }),
{
    let l = LooseLayout::spec_from_packed(value);
    let c = value.spec_channels() as int;
    let w = value.spec_width() as int;
    let h = value.spec_height() as int;
    lemma_packed_layout_facts(value);
    assert(w * c <= w * h * c && h * c <= w * h * c) by (nonlinear_arith)
        requires
            w >= 1,
            h >= 1,
            c >= 1,
    ;
    assert forall|x: int, y: int, ch: int|
        0 <= x < w && 0 <= y < h && 0 <= ch < c implies #[trigger] l.spec_component_index(x, y, ch)
        == value.spec_component_index(x, y, ch) by {
        assert(value.spec_pixel_index(x, y) == packed_pixel_index(value.spec_order(), c, w, h, x, y));
        assert((x + y * w) * c == x * c + y * (w * c)) by (nonlinear_arith);
        assert((y + x * h) * c == y * c + x * (h * c)) by (nonlinear_arith);
        assert(ch * 1 == ch);
    }
    assert(covers(w * c, c, w) && covers(h * c, c, h) && covers(c, 1, c) && w * c > 0 && h * c > 0)
        by (nonlinear_arith)
        requires
            w >= 1,
            h >= 1,
            c >= 1,
    ;
    match value.spec_order() {
        InterleavedLayoutOrder::RowMajor => {
            assert(l.y_stride == w * c && l.x_stride == c && l.channel_stride == 1);
            assert(spec_loose_order(c, 1, c, w * c, w, h) is Some);
        },
        InterleavedLayoutOrder::ColumnMajor => {
            assert(l.x_stride == h * c && l.y_stride == c && l.channel_stride == 1);
            assert(spec_loose_order(c, 1, h * c, c, w, h) is Some);
        },
    }
    assert(l.extent() == w * h * c) by {
        assert((c - 1) + (w - 1) * c + (h - 1) * (w * c) + 1 == w * h * c) by (nonlinear_arith);
        assert((c - 1) + (w - 1) * (h * c) + (h - 1) * c + 1 == w * h * c) by (nonlinear_arith);
        assert((c - 1) * 1 == c - 1);
    }
}

impl From<PackedLayout> for LooseLayout {
    fn from(value: PackedLayout) -> (layout: Self) {
        let channels = value.channels();
        let width = value.width();
        let height = value.height();
        proof {
            lemma_from_packed_layout(value);
            lemma_packed_layout_facts(value);
            assert(width * channels <= width * height * channels && height * channels <= width
                * height * channels) by (nonlinear_arith)
                requires
                    width >= 1,
                    height >= 1,
                    channels >= 1,
            ;
        }
        let layout = match value.order() {
            InterleavedLayoutOrder::RowMajor => Self {
                channels,
                width,
                height,
                channel_stride: 1,
                x_stride: channels,
                y_stride: width as usize * channels,
            },
            InterleavedLayoutOrder::ColumnMajor => Self {
                channels,
                width,
                height,
                channel_stride: 1,
                x_stride: height as usize * channels,
                y_stride: channels,
            },
        };
        layout
    }
}

impl vstd::std_specs::convert::FromSpecImpl<PackedLayout> for LooseLayout {
    open spec fn obeys_from_spec() -> bool {
        true
    }

    open spec fn from_spec(value: PackedLayout) -> Self {
        LooseLayout::spec_from_packed(value)
    }
}

/// Shrinking keeps the first `channels` channels in their places.
proof fn lemma_shrunk_extent(layout: LooseLayout, channels: usize)
    requires
        layout.inv(),
        channels <= layout.channels,
    ensures
        ({
            let shrunk = LooseLayout { channels, ..layout };
            &&& shrunk.inv()
            &&& shrunk.extent() <= layout.extent()
        }),
{
    assert(layout.channel_stride * channels <= layout.channel_stride * layout.channels)
        by (nonlinear_arith)
        requires
            channels <= layout.channels,
            layout.channel_stride >= 0,
    ;
    if channels > 0 {
        assert((channels - 1) * layout.channel_stride <= (layout.channels - 1)
            * layout.channel_stride) by (nonlinear_arith)
            requires
                channels <= layout.channels,
                layout.channel_stride >= 0,
        ;
    }
}

impl ChannelShrinkable<LooseLayout> for LooseLayout {
    closed spec fn spec_shrunk(self, channels: usize) -> LooseLayout {
        LooseLayout { channels, ..self }
    }

    fn shrink_channels(self, channels: usize) -> (shrunk: Result<LooseLayout, Error>)
        ensures
            shrunk matches Ok(l) ==> {
                &&& l.spec_channel_stride() == self.spec_channel_stride()
                &&& l.spec_x_stride() == self.spec_x_stride()
                &&& l.spec_y_stride() == self.spec_y_stride()
            },
    {
        proof {
            use_type_invariant(&self);
        }
        if channels > self.channels {
            return Err(Error::TooManyChannels);
        }
        proof {
            lemma_shrunk_extent(self, channels);
        }
        Ok(LooseLayout { channels, ..self })
    }
}

impl ChannelShrinkable<LooseLayout> for PackedLayout {
    closed spec fn spec_shrunk(self, channels: usize) -> LooseLayout {
        LooseLayout { channels, ..LooseLayout::spec_from_packed(self) }
    }

    fn shrink_channels(self, channels: usize) -> (shrunk: Result<LooseLayout, Error>)
        ensures
            shrunk matches Ok(l) ==> {
                &&& l.spec_channel_stride() == 1
                &&& self.spec_order() == InterleavedLayoutOrder::RowMajor ==> l.spec_x_stride()
                    == self.spec_channels() && l.spec_y_stride() == self.spec_width()
                    * self.spec_channels()
                &&& self.spec_order() == InterleavedLayoutOrder::ColumnMajor ==> l.spec_x_stride()
                    == self.spec_height() * self.spec_channels() && l.spec_y_stride()
                    == self.spec_channels()
            },
    {
        proof {
            use_type_invariant(&self);
            lemma_packed_layout_facts(self);
            lemma_from_packed_layout(self);
            LooseLayout::lemma_from_packed_strides(self);
        }
        let layout = LooseLayout::from(self);
        layout.shrink_channels(channels)
    }
}

/// Shrinking a loose layout keeps its dimensions and strides and sets its channel count.
pub proof fn lemma_shrunk_loose(layout: LooseLayout, channels: usize)
    ensures
        ({
            let shrunk = layout.spec_shrunk(channels);
            &&& shrunk.spec_channels() == channels
            &&& shrunk.spec_width() == layout.spec_width()
            &&& shrunk.spec_height() == layout.spec_height()
            &&& shrunk.spec_channel_stride() == layout.spec_channel_stride()
            &&& shrunk.spec_x_stride() == layout.spec_x_stride()
            &&& shrunk.spec_y_stride() == layout.spec_y_stride()
        }),
{
}

/// Shrinking a packed layout gives its loose form with the new channel count.
pub proof fn lemma_shrunk_packed(layout: PackedLayout, channels: usize)
    ensures
        layout.spec_shrunk(channels) == LooseLayout::spec_from_packed(layout).spec_shrunk(channels),
{
}

/// Seen as a loose layout, a packed layout still gives every pixel samples of its own.
pub proof fn lemma_from_packed_pixels_disjoint(value: PackedLayout, x1: int, y1: int, c1: int, x2: int, y2: int, c2: int)
    requires
        value.wf(),
        0 <= x1 < value.spec_width(),
        0 <= y1 < value.spec_height(),
        0 <= x2 < value.spec_width(),
        0 <= y2 < value.spec_height(),
        0 <= c1 < value.spec_channels(),
        0 <= c2 < value.spec_channels(),
        x1 != x2 || y1 != y2,
    ensures
        LooseLayout::spec_from_packed(value).spec_component_index(x1, y1, c1)
            != LooseLayout::spec_from_packed(value).spec_component_index(x2, y2, c2),
{
    lemma_from_packed_layout(value);
    crate::image::packed::lemma_packed_pixels_disjoint(value, x1, y1, c1, x2, y2, c2);
}

/// No two pixels of an image with a loose layout share a sample.
pub proof fn lemma_loose_image_pixels_disjoint<const CHANNELS: usize, C: Color<CHANNELS>>(
    image: GenericImage<CHANNELS, C, LooseLayout>,
)
    requires
        image.spec_layout().wf(),
        image.spec_layout().spec_channels() == CHANNELS,
    ensures
        pixels_disjoint(image),
{
    let layout = image.spec_layout();
    assert forall|x1: int, y1: int, x2: int, y2: int|
        0 <= x1 < image.spec_dimensions().0 && 0 <= y1 < image.spec_dimensions().1 && 0 <= x2
            < image.spec_dimensions().0 && 0 <= y2 < image.spec_dimensions().1 && (x1 != x2 || y1
            != y2) implies #[trigger] image.spec_disjoint(x1, y1, x2, y2) by {
        assert forall|c1: int, c2: int| 0 <= c1 < CHANNELS && 0 <= c2 < CHANNELS implies
            #[trigger] layout.spec_component_index(x1, y1, c1)
            != #[trigger] layout.spec_component_index(x2, y2, c2) by {
            layout.lemma_no_aliasing(x1, y1, c1, x2, y2, c2);
        }
    }
}

impl<const CHANNELS: usize, C: Color<CHANNELS>> ImageView<CHANNELS> for GenericImage<
    CHANNELS,
    C,
    LooseLayout,
> {
    type Pixel = C;

    open spec fn spec_dimensions(&self) -> (u32, u32) {
        (self.spec_layout().spec_width(), self.spec_layout().spec_height())
    }

    open spec fn spec_pixel(&self, x: int, y: int) -> Seq<C::Scalar> {
        self.spec_pixel_at(x, y)
    }

    open spec fn spec_disjoint(&self, x1: int, y1: int, x2: int, y2: int) -> bool {
        forall|c1: int, c2: int|
            0 <= c1 < CHANNELS && 0 <= c2 < CHANNELS ==> #[trigger] self.spec_layout().spec_component_index(
                x1,
                y1,
                c1,
            ) != #[trigger] self.spec_layout().spec_component_index(x2, y2, c2)
    }

    fn dimensions(&self) -> (dimensions: (u32, u32)) {
        (self.layout.width(), self.layout.height())
    }

    fn get_pixel_unchecked(&self, x: u32, y: u32) -> (pixel: Self::Pixel) {
        proof {
            use_type_invariant(self);
            self.lemma_fields();
        }
        let mut samples = [C::Scalar::default(); CHANNELS];
        let mut channel: usize = 0;
        while channel < CHANNELS
            invariant
                channel <= CHANNELS,
                x < self.spec_layout().spec_width(),
                y < self.spec_layout().spec_height(),
                self.spec_layout().wf(),
                self.spec_layout().spec_channels() == CHANNELS,
                self.spec_buffer().len() >= self.spec_layout().spec_minimum_buffer_size(),
                forall|c: int| 0 <= c < channel ==> #[trigger] samples@[c] == self.spec_pixel_at(x as int, y as int)[c],
            decreases CHANNELS - channel,
        {
            let index = self.layout.component_index_unchecked(x, y, channel);
            proof {
                self.layout.lemma_component_index_bounds(x as int, y as int, channel as int);
            }
            samples[channel] = self.buffer[index];
            channel += 1;
        }
        proof {
            C::lemma_from_array_to_array(samples);
            assert(samples@ == self.spec_pixel_at(x as int, y as int));
        }
        C::from_array(samples)
    }
}

impl<const CHANNELS: usize, C: Color<CHANNELS>> ImageViewMut<CHANNELS> for GenericImage<
    CHANNELS,
    C,
    LooseLayout,
> {
    fn put_pixel_unchecked(&mut self, x: u32, y: u32, pixel: Self::Pixel) {
        proof {
            use_type_invariant(&*self);
            old(self).lemma_fields();
        }
        // For each channel of the pixel, individually set the sample into the underlying buffer
        let samples = pixel.to_array();
        let mut channel: usize = 0;
        while channel < CHANNELS
            invariant
                channel <= CHANNELS,
                x < old(self).spec_layout().spec_width(),
                y < old(self).spec_layout().spec_height(),
                self.layout == old(self).spec_layout(),
                self.layout.wf(),
                self.layout.spec_channels() == CHANNELS,
                self.buffer@.len() == old(self).spec_buffer().len(),
                self.buffer@.len() >= self.layout.spec_minimum_buffer_size(),
                samples == pixel.spec_array(),
                forall|c: int|
                    0 <= c < channel ==> self.buffer@[#[trigger] self.layout.spec_component_index(
                        x as int,
                        y as int,
                        c,
                    )] == samples@[c],
                forall|i: int|
                    0 <= i < self.buffer@.len() && (forall|c: int|
                        0 <= c < channel ==> i != #[trigger] self.layout.spec_component_index(
                            x as int,
                            y as int,
                            c,
                        )) ==> #[trigger] self.buffer@[i] == old(self).spec_buffer()[i],
            decreases CHANNELS - channel,
        {
            let index = self.layout.component_index_unchecked(x, y, channel);
            proof {
                self.layout.lemma_component_index_bounds(x as int, y as int, channel as int);
                assert forall|c: int| 0 <= c < channel implies #[trigger] self.layout.spec_component_index(
                    x as int,
                    y as int,
                    c,
                ) != index by {
                    self.layout.lemma_channel_indices_distinct(x as int, y as int, c, channel as int);
                    self.layout.lemma_component_index_bounds(x as int, y as int, c);
                }
            }
            let ghost prev = self.buffer@;
            self.buffer[index] = samples[channel];
            proof {
                assert(self.buffer@ == prev.update(index as int, samples@[channel as int]));
                assert(self.buffer@[index as int] == samples@[channel as int]);
                assert forall|c: int|
                    0 <= c < channel + 1 implies self.buffer@[#[trigger] self.layout.spec_component_index(
                        x as int,
                        y as int,
                        c,
                    )] == samples@[c] by {
                    if c < channel {
                        self.layout.lemma_channel_indices_distinct(x as int, y as int, c, channel as int);
                        self.layout.lemma_component_index_bounds(x as int, y as int, c);
                        assert(prev[self.layout.spec_component_index(x as int, y as int, c)] == samples@[c]);
                    }
                }
            }
            channel += 1;
        }
        proof {
            self.lemma_fields();
            assert(self.spec_pixel_at(x as int, y as int) == samples@);
            assert forall|x2: int, y2: int|
                0 <= x2 < old(self).spec_dimensions().0 && 0 <= y2 < old(self).spec_dimensions().1
                    && old(self).spec_disjoint(x as int, y as int, x2, y2) implies #[trigger] self.spec_pixel(
                x2,
                y2,
            ) == old(self).spec_pixel(x2, y2) by {
                assert forall|c2: int| 0 <= c2 < CHANNELS implies self.buffer@[self.layout.spec_component_index(
                    x2,
                    y2,
                    c2,
                )] == old(self).spec_buffer()[self.layout.spec_component_index(x2, y2, c2)] by {
                    let i = self.layout.spec_component_index(x2, y2, c2);
                    self.layout.lemma_component_index_bounds(x2, y2, c2);
                    assert forall|c: int| 0 <= c < CHANNELS implies i
                        != #[trigger] self.layout.spec_component_index(x as int, y as int, c) by {
                        assert(old(self).spec_layout().spec_component_index(x as int, y as int, c)
                            != old(self).spec_layout().spec_component_index(x2, y2, c2));
                    }
                }
                assert(self.spec_pixel(x2, y2) =~= old(self).spec_pixel(x2, y2));
            }
        }
    }
}

} // verus!
