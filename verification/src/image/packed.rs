use vstd::prelude::*;

use crate::error::Error;
use crate::image::interleaved::InterleavedLayoutOrder;
use crate::image::GenericImage;
use crate::util::{slice_as_array, split_arrays_mut, vec_as_mut_slice};
use crate::traits::{
    convert_samples, Color, ConvertColorFrom, ImageIter, ImageIterMut, ImageLayout, InterleavedImageLayout, PixelView,
    PixelViewMut,
};

verus! {

/// Describes the layout of a packed image, where each row/column of pixels is stored contiguously in memory, with no padding in between.
#[derive(Copy, Clone, Debug, PartialEq, Eq)]
pub struct PackedLayout {
    /// The number of color channels in the image.
    channels: usize,
    /// The width of the image.
    width: u32,
    /// The height of the image.
    height: u32,
    /// The storage order of the image, either column major or row major.
    order: InterleavedLayoutOrder,
}

/// The buffer index of the first channel of the pixel at (x, y) in a packed image.
pub open spec fn packed_pixel_index(
    order: InterleavedLayoutOrder,
    channels: int,
    width: int,
    height: int,
    x: int,
    y: int,
) -> int {
    match order {
        InterleavedLayoutOrder::RowMajor => (x + y * width) * channels,
        InterleavedLayoutOrder::ColumnMajor => (y + x * height) * channels,
    }
}

/// The coordinates of the `index`-th pixel in storage order of a packed image.
pub open spec fn packed_reverse_index(
    order: InterleavedLayoutOrder,
    width: int,
    height: int,
    index: int,
) -> (int, int) {
    match order {
        InterleavedLayoutOrder::RowMajor => (index % width, index / width),
        InterleavedLayoutOrder::ColumnMajor => (index / height, index % height),
    }
}

/// The pixel slot `p` of a grid with `inner` slots per line holds the pixel whose index is `p`.
proof fn lemma_slot_bounds(a: int, b: int, inner: int, outer: int, channels: int)
    requires
        0 <= a < inner,
        0 <= b < outer,
        channels >= 0,
    ensures
        0 <= a + b * inner < inner * outer,
        0 <= (a + b * inner) * channels,
        (a + b * inner) * channels + channels <= inner * outer * channels,
{
    assert(0 <= b * inner) by (nonlinear_arith)
        requires
            0 <= b,
            0 <= inner,
    ;
    assert(b * inner + inner <= inner * outer) by (nonlinear_arith)
        requires
            b < outer,
            0 <= inner,
    ;
    assert((a + b * inner) * channels + channels <= inner * outer * channels) by (nonlinear_arith)
        requires
            a + b * inner + 1 <= inner * outer,
            channels >= 0,
    ;
    assert(0 <= (a + b * inner) * channels) by (nonlinear_arith)
        requires
            0 <= a + b * inner,
            channels >= 0,
    ;
}

/// Division by the line length splits a slot into its position and line.
proof fn lemma_slot_split(index: int, inner: int, outer: int)
    requires
        inner > 0,
        0 <= index < inner * outer,
    ensures
        0 <= index % inner < inner,
        0 <= index / inner < outer,
        index % inner + (index / inner) * inner == index,
{
    vstd::arithmetic::div_mod::lemma_fundamental_div_mod(index, inner);
    vstd::arithmetic::div_mod::lemma_div_pos_is_pos(index, inner);
    vstd::arithmetic::div_mod::lemma_mod_bound(index, inner);
    vstd::arithmetic::mul::lemma_mul_is_commutative(inner, index / inner);
    if index / inner >= outer {
        vstd::arithmetic::mul::lemma_mul_inequality(outer, index / inner, inner);
        vstd::arithmetic::mul::lemma_mul_is_commutative(inner, outer);
    }
}

impl PackedLayout {
    /// The invariant of a packed layout: a non-empty image whose samples fit in a `usize`.
    #[verifier::type_invariant]
    pub closed spec fn inv(self) -> bool {
        &&& self.channels > 0
        &&& self.width > 0
        &&& self.height > 0
        &&& self.channels * self.width * self.height <= usize::MAX
    }

    /// Create a new packed layout.
    pub fn new(channels: usize, width: u32, height: u32, order: InterleavedLayoutOrder) -> (layout:
        Result<Self, Error>)
        ensures
            channels == 0 ==> layout == Err::<Self, Error>(Error::ZeroChannels),
            channels > 0 && width == 0 ==> layout == Err::<Self, Error>(Error::ZeroWidth),
            channels > 0 && width > 0 && height == 0 ==> layout == Err::<Self, Error>(
                Error::ZeroHeight,
            ),
            channels > 0 && width > 0 && height > 0 && channels * width * height > usize::MAX
                ==> layout == Err::<Self, Error>(Error::LayoutTooLarge),
            channels > 0 && width > 0 && height > 0 && channels * width * height <= usize::MAX
                ==> (layout matches Ok(l) && l.spec_channels() == channels && l.spec_width() == width
                && l.spec_height() == height && l.spec_order() == order),
    {
        if channels == 0 {
            return Err(Error::ZeroChannels);
        }
        if width == 0 {
            return Err(Error::ZeroWidth);
        }
        if height == 0 {
            return Err(Error::ZeroHeight);
        }
        let size = match channels.checked_mul(width as usize) {
            Some(s) => s.checked_mul(height as usize),
            None => {
                assert(channels * width * height >= channels * width) by (nonlinear_arith)
                    requires
                        height >= 1,
                        channels * width >= 0,
                ;
                None
            },
        };
        if size.is_none() {
            return Err(Error::LayoutTooLarge);
        }
        Ok(Self { channels, width, height, order })
    }

    /// Get the major and minor sidelengths of the image, i.e. the width and height if row major, or the height and width if column major.
    pub fn major_minor_sidelengths(&self) -> (sides: (u32, u32))
        ensures
            self.spec_order() == InterleavedLayoutOrder::RowMajor ==> sides == (
                self.spec_width(),
                self.spec_height(),
            ),
            self.spec_order() == InterleavedLayoutOrder::ColumnMajor ==> sides == (
                self.spec_height(),
                self.spec_width(),
            ),
    {
        if self.is_row_major() {
            (self.width, self.height)
        } else {
            (self.height, self.width)
        }
    }

    /// The number of pixels of the image.
    pub(crate) fn pixel_count(&self) -> (count: usize)
        ensures
            count == self.spec_width() * self.spec_height(),
            count * self.spec_channels() == self.spec_minimum_buffer_size(),
    {
        proof {
            use_type_invariant(self);
            lemma_packed_layout_facts(*self);
            let w = self.spec_width() as int;
            let h = self.spec_height() as int;
            let c = self.spec_channels() as int;
            assert(w * h <= w * h * c) by (nonlinear_arith)
                requires
                    w >= 0,
                    h >= 0,
                    c >= 1,
            ;
        }
        self.width as usize * self.height as usize
    }

    /// Get the coordinates of the pixel at the given index.
    pub(crate) fn reverse_index(&self, index: usize) -> (coordinates: (u32, u32))
        ensures
            coordinates.0 == packed_reverse_index(
                self.spec_order(),
                self.spec_width() as int,
                self.spec_height() as int,
                index as int,
            ).0 as u32,
            coordinates.1 == packed_reverse_index(
                self.spec_order(),
                self.spec_width() as int,
                self.spec_height() as int,
                index as int,
            ).1 as u32,
            index < self.spec_width() * self.spec_height() ==> {
                &&& coordinates.0 < self.spec_width()
                &&& coordinates.1 < self.spec_height()
                &&& self.spec_pixel_index(coordinates.0 as int, coordinates.1 as int) == index
                    * self.spec_channels()
            },
    {
        proof {
            use_type_invariant(self);
        }
        let width = self.width as usize;
        let height = self.height as usize;
        proof {
            if index < self.spec_width() * self.spec_height() {
                lemma_reverse_index_inverts(*self, index as int);
            }
        }
        if self.is_row_major() {
            ((index % width) as u32, (index / width) as u32)
        } else {
            ((index / height) as u32, (index % height) as u32)
        }
    }
}

/// What the invariant of a packed layout says of its dimensions and buffer size.
pub proof fn lemma_packed_layout_facts(layout: PackedLayout)
    requires
        layout.inv() || layout.wf(),
    ensures
        layout.wf(),
        layout.spec_channels() > 0,
        layout.spec_width() > 0,
        layout.spec_height() > 0,
        layout.spec_minimum_buffer_size() == layout.spec_width() * layout.spec_height()
            * layout.spec_channels(),
        layout.spec_minimum_buffer_size() <= usize::MAX,
        forall|x: int, y: int| #[trigger] layout.spec_pixel_index(x, y) == packed_pixel_index(
            layout.spec_order(),
            layout.spec_channels() as int,
            layout.spec_width() as int,
            layout.spec_height() as int,
            x,
            y,
        ),
        forall|x: int, y: int, c: int| #[trigger] layout.spec_component_index(x, y, c) == c
            + layout.spec_pixel_index(x, y),
{
    let w = layout.width as int;
    let h = layout.height as int;
    let c = layout.channels as int;
    assert(w * h * c == c * w * h) by (nonlinear_arith);
}

/// Walking a packed image in storage order: the `index`-th pixel lies inside the image, and its pixel index is `index` times the number of channels.
pub proof fn lemma_reverse_index_inverts(layout: PackedLayout, index: int)
    requires
        0 <= index < layout.spec_width() * layout.spec_height(),
    ensures
        ({
            let (x, y) = packed_reverse_index(
                layout.spec_order(),
                layout.spec_width() as int,
                layout.spec_height() as int,
                index,
            );
            &&& 0 <= x < layout.spec_width()
            &&& 0 <= y < layout.spec_height()
            &&& layout.spec_pixel_index(x, y) == index * layout.spec_channels()
        }),
{
    let w = layout.spec_width() as int;
    let h = layout.spec_height() as int;
    assert(w > 0 && h > 0) by (nonlinear_arith)
        requires
            0 <= index < w * h,
            w >= 0,
            h >= 0,
    ;
    match layout.spec_order() {
        InterleavedLayoutOrder::RowMajor => {
            lemma_slot_split(index, w, h);
        },
        InterleavedLayoutOrder::ColumnMajor => {
            vstd::arithmetic::mul::lemma_mul_is_commutative(w, h);
            lemma_slot_split(index, h, w);
            assert(index / h + (index % h) * w >= 0) by (nonlinear_arith)
                requires
                    index / h >= 0,
                    index % h >= 0,
                    w >= 0,
            ;
        },
    }
}

/// Every pixel of a packed layout owns its own `channels` samples: distinct pixels do not share a sample.
pub proof fn lemma_packed_pixels_disjoint(
    layout: PackedLayout,
    x1: int,
    y1: int,
    c1: int,
    x2: int,
    y2: int,
    c2: int,
)
    requires
        0 <= x1 < layout.spec_width(),
        0 <= y1 < layout.spec_height(),
        0 <= x2 < layout.spec_width(),
        0 <= y2 < layout.spec_height(),
        0 <= c1 < layout.spec_channels(),
        0 <= c2 < layout.spec_channels(),
        x1 != x2 || y1 != y2,
    ensures
        layout.spec_component_index(x1, y1, c1) != layout.spec_component_index(x2, y2, c2),
{
    let w = layout.spec_width() as int;
    let h = layout.spec_height() as int;
    let c = layout.spec_channels() as int;
    let (p1, p2) = match layout.spec_order() {
        InterleavedLayoutOrder::RowMajor => (x1 + y1 * w, x2 + y2 * w),
        InterleavedLayoutOrder::ColumnMajor => (y1 + x1 * h, y2 + x2 * h),
    };
    assert(p1 != p2) by {
        match layout.spec_order() {
            InterleavedLayoutOrder::RowMajor => {
                lemma_slot_bounds(x1, y1, w, h, 0);
                lemma_slot_bounds(x2, y2, w, h, 0);
                vstd::arithmetic::div_mod::lemma_fundamental_div_mod_converse(p1, w, y1, x1);
                vstd::arithmetic::div_mod::lemma_fundamental_div_mod_converse(p2, w, y2, x2);
            },
            InterleavedLayoutOrder::ColumnMajor => {
                vstd::arithmetic::div_mod::lemma_fundamental_div_mod_converse(p1, h, x1, y1);
                vstd::arithmetic::div_mod::lemma_fundamental_div_mod_converse(p2, h, x2, y2);
            },
        }
    }
    assert(p1 * c + c1 != p2 * c + c2) by (nonlinear_arith)
        requires
            p1 != p2,
            0 <= c1 < c,
            0 <= c2 < c,
    {
        if p1 < p2 {
            assert(p1 * c + c <= p2 * c) by (nonlinear_arith)
                requires
                    p1 + 1 <= p2,
                    c > 0,
            ;
        } else {
            assert(p2 * c + c <= p1 * c) by (nonlinear_arith)
                requires
                    p2 + 1 <= p1,
                    c > 0,
            ;
        }
    }
}

impl ImageLayout for PackedLayout {
    closed spec fn wf(&self) -> bool {
        self.inv()
    }

    closed spec fn spec_channels(&self) -> usize {
        self.channels
    }

    closed spec fn spec_width(&self) -> u32 {
        self.width
    }

    closed spec fn spec_height(&self) -> u32 {
        self.height
    }

    closed spec fn spec_minimum_buffer_size(&self) -> nat {
        (self.width * self.height * self.channels) as nat
    }

    closed spec fn spec_component_index(&self, x: int, y: int, channel: int) -> int {
        channel + packed_pixel_index(
            self.order,
            self.channels as int,
            self.width as int,
            self.height as int,
            x,
            y,
        )
    }

    proof fn lemma_component_index_bounds(&self, x: int, y: int, channel: int) {
        self.lemma_pixel_index(x, y);
    }

    proof fn lemma_channel_indices_distinct(&self, x: int, y: int, c1: int, c2: int) {
    }

    fn channels(&self) -> (channels: usize) {
        proof {
            use_type_invariant(self);
            assert(self.wf());
        }
        self.channels
    }

    fn width(&self) -> (width: u32) {
        proof {
            use_type_invariant(self);
            assert(self.wf());
        }
        self.width
    }

    fn height(&self) -> (height: u32) {
        proof {
            use_type_invariant(self);
            assert(self.wf());
        }
        self.height
    }

    fn minimum_buffer_size(&self) -> (size: usize) {
        proof {
            use_type_invariant(self);
            assert(self.width * self.height * self.channels == self.channels * self.width
                * self.height) by (nonlinear_arith);
            assert(self.width * self.height <= self.width * self.height * self.channels)
                by (nonlinear_arith)
                requires
                    self.channels >= 1,
                    self.width * self.height >= 0,
            ;
        }
        self.width as usize * self.height as usize * self.channels
    }

    fn component_index_unchecked(&self, x: u32, y: u32, channel: usize) -> (index: usize) {
        proof {
            use_type_invariant(self);
            self.lemma_pixel_index(x as int, y as int);
        }
        channel + self.pixel_index_unchecked(x, y)
    }
}

impl InterleavedImageLayout for PackedLayout {
    closed spec fn spec_pixel_index(&self, x: int, y: int) -> int {
        packed_pixel_index(
            self.order,
            self.channels as int,
            self.width as int,
            self.height as int,
            x,
            y,
        )
    }

    closed spec fn spec_order(&self) -> InterleavedLayoutOrder {
        self.order
    }

    proof fn lemma_pixel_index(&self, x: int, y: int) {
        let w = self.width as int;
        let h = self.height as int;
        let c = self.channels as int;
        assert(self.inv());
        assert(w * h * c == c * w * h) by (nonlinear_arith);
        assert(self.spec_minimum_buffer_size() == w * h * c);
        assert(self.spec_pixel_index(x, y) == packed_pixel_index(self.order, c, w, h, x, y));
        assert(forall|ch: int| #[trigger] self.spec_component_index(x, y, ch) == ch + packed_pixel_index(self.order, c, w, h, x, y));
        match self.order {
            InterleavedLayoutOrder::RowMajor => {
                lemma_slot_bounds(x, y, w, h, c);
            },
            InterleavedLayoutOrder::ColumnMajor => {
                lemma_slot_bounds(y, x, h, w, c);
                assert(h * w * c == w * h * c) by (nonlinear_arith);
            },
        }
    }

    fn pixel_index_unchecked(&self, x: u32, y: u32) -> (index: usize) {
        proof {
            use_type_invariant(self);
            self.lemma_pixel_index(x as int, y as int);
            let w = self.width as int;
            let h = self.height as int;
            let c = self.channels as int;
            assert((x + y * w) * c == x * c + y * w * c) by (nonlinear_arith);
            assert((y + x * h) * c == y * c + x * h * c) by (nonlinear_arith);
            assert(0 <= x * c <= (x + y * w) * c) by (nonlinear_arith)
                requires
                    x >= 0,
                    y * w >= 0,
                    c >= 0,
            ;
            assert(0 <= y * c <= (y + x * h) * c) by (nonlinear_arith)
                requires
                    y >= 0,
                    x * h >= 0,
                    c >= 0,
            ;
            assert(0 <= y * w <= y * w * c) by (nonlinear_arith)
                requires
                    y >= 0,
                    w >= 0,
                    c >= 1,
            ;
            assert(0 <= x * h <= x * h * c) by (nonlinear_arith)
                requires
                    x >= 0,
                    h >= 0,
                    c >= 1,
            ;
        }
        match self.order {
            InterleavedLayoutOrder::RowMajor => x as usize * self.channels + y as usize
                * self.width as usize * self.channels,
            InterleavedLayoutOrder::ColumnMajor => y as usize * self.channels + x as usize
                * self.height as usize * self.channels,
        }
    }

    fn order(&self) -> (order: InterleavedLayoutOrder) {
        self.order
    }
}

/// The samples of the `index`-th pixel slot of a buffer of pixels with `channels` channels each.
pub open spec fn pixel_chunk<S>(buffer: Seq<S>, channels: int, index: int) -> Seq<S> {
    buffer.subrange(index * channels, index * channels + channels)
}

/// The `index`-th slot of `channels` samples lies inside a buffer of `len` samples when `index < len / channels`.
pub(crate) proof fn lemma_chunk_in_buffer(index: int, channels: int, len: int)
    requires
        channels > 0,
        len >= 0,
        0 <= index < len / channels,
    ensures
        0 <= index * channels,
        index * channels + channels <= len,
        index * channels + channels <= (len / channels) * channels,
{
    vstd::arithmetic::div_mod::lemma_fundamental_div_mod(len, channels);
    vstd::arithmetic::mul::lemma_mul_inequality(index + 1, len / channels, channels);
    vstd::arithmetic::mul::lemma_mul_is_commutative(channels, len / channels);
    assert((index + 1) * channels == index * channels + channels) by (nonlinear_arith);
    assert(0 <= index * channels) by (nonlinear_arith)
        requires
            index >= 0,
            channels > 0,
    ;
    vstd::arithmetic::div_mod::lemma_mod_bound(len, channels);
}

/// The `index`-th of `count` slots of `channels` samples lies in the first `count * channels` samples.
proof fn lemma_slot_in_buffer(index: int, count: int, channels: int, len: int)
    requires
        0 <= index < count,
        channels > 0,
        count * channels <= len,
    ensures
        0 <= index * channels,
        index * channels + channels <= count * channels,
        index * channels + channels <= len,
{
    crate::util::lemma_scaled_below(index, count, channels);
}

impl<const CHANNELS: usize, C: Color<CHANNELS>> GenericImage<CHANNELS, C, PackedLayout> {
    /// The number of pixels of the image.
    pub open spec fn spec_pixel_count(&self) -> int {
        self.spec_layout().spec_width() * self.spec_layout().spec_height()
    }

    /// Convert the color of the image to a different color type.
    ///
    /// Each pixel of the image is read as a color of type `C`, converted, and written back; samples past the image are left as they are.
    pub fn convert_color<DstColor>(self) -> (image: GenericImage<CHANNELS, DstColor, PackedLayout>) where
        DstColor: Color<CHANNELS, Scalar = C::Scalar> + ConvertColorFrom<CHANNELS, C>,

        ensures
            image.spec_layout() == self.spec_layout(),
            image.spec_buffer().len() == self.spec_buffer().len(),
            forall|p: int, samples: [C::Scalar; CHANNELS]|
                #![trigger pixel_chunk(image.spec_buffer(), CHANNELS as int, p), samples@]
                0 <= p < self.spec_pixel_count() && samples@ == pixel_chunk(
                    self.spec_buffer(),
                    CHANNELS as int,
                    p,
                ) ==> pixel_chunk(image.spec_buffer(), CHANNELS as int, p)
                    == DstColor::spec_color_from(C::spec_from_array(samples)).spec_array()@,
            forall|j: int|
                self.spec_pixel_count() * CHANNELS <= j < self.spec_buffer().len()
                    ==> #[trigger] image.spec_buffer()[j] == self.spec_buffer()[j],
    {
        proof {
            use_type_invariant(&self);
            self.lemma_fields();
            lemma_packed_layout_facts(self.layout);
        }
        let ghost original = self.buffer@;
        let count = self.layout.pixel_count();
        let GenericImage { buffer, layout, _color } = self;
        let mut buffer = buffer;
        let mut p: usize = 0;
        while p < count
            invariant
                CHANNELS > 0,
                count * CHANNELS <= original.len(),
                original.len() <= usize::MAX,
                p <= count,
                buffer@.len() == original.len(),
                forall|q: int, samples: [C::Scalar; CHANNELS]|
                    #![trigger pixel_chunk(buffer@, CHANNELS as int, q), samples@]
                    0 <= q < p && samples@ == pixel_chunk(original, CHANNELS as int, q)
                        ==> pixel_chunk(buffer@, CHANNELS as int, q)
                        == DstColor::spec_color_from(C::spec_from_array(samples)).spec_array()@,
                forall|j: int|
                    p * CHANNELS <= j < original.len() ==> #[trigger] buffer@[j] == original[j],
            decreases count - p,
        {
            proof {
                lemma_slot_in_buffer(p as int, count as int, CHANNELS as int, original.len() as int);
            }
            let start = p * CHANNELS;
            let array_in: [C::Scalar; CHANNELS] = *slice_as_array(
                vstd::slice::slice_subrange(buffer.as_slice(), start, start + CHANNELS),
            );
            let array_out = convert_samples::<CHANNELS, C, DstColor>(array_in);
            let ghost before = buffer@;
            proof {
                assert(array_in@ =~= pixel_chunk(original, CHANNELS as int, p as int));
            }
            let mut c: usize = 0;
            while c < CHANNELS
                invariant
                    CHANNELS > 0,
                    c <= CHANNELS,
                    start == p * CHANNELS,
                    start + CHANNELS <= original.len(),
                    original.len() <= usize::MAX,
                    buffer@.len() == original.len(),
                    forall|j: int| 0 <= j < c ==> #[trigger] buffer@[start + j] == array_out@[j],
                    forall|j: int|
                        0 <= j < original.len() && !(start <= j < start + c) ==> #[trigger] buffer@[j]
                            == before[j],
                decreases CHANNELS - c,
            {
                buffer[start + c] = array_out[c];
                c += 1;
            }
            proof {
                assert forall|k: int| 0 <= k < CHANNELS implies #[trigger] pixel_chunk(
                    buffer@,
                    CHANNELS as int,
                    p as int,
                )[k] == array_out@[k] by {
                    assert(buffer@[start + k] == array_out@[k]);
                }
                assert(pixel_chunk(buffer@, CHANNELS as int, p as int) =~= array_out@);
                assert forall|q: int, samples: [C::Scalar; CHANNELS]|
                    #![trigger pixel_chunk(buffer@, CHANNELS as int, q), samples@]
                    0 <= q < p + 1 && samples@ == pixel_chunk(original, CHANNELS as int, q)
                        implies pixel_chunk(buffer@, CHANNELS as int, q)
                        == DstColor::spec_color_from(C::spec_from_array(samples)).spec_array()@ by {
                    if q < p {
                        lemma_slot_in_buffer(q, count as int, CHANNELS as int, original.len() as int);
                        assert(q * CHANNELS + CHANNELS <= p * CHANNELS) by (nonlinear_arith)
                            requires
                                q + 1 <= p,
                                CHANNELS > 0,
                        ;
                        assert(pixel_chunk(buffer@, CHANNELS as int, q) =~= pixel_chunk(
                            before,
                            CHANNELS as int,
                            q,
                        ));
                    } else {
                        assert(samples == array_in) by {
                            assert(samples =~= array_in);
                        }
                    }
                }
                assert((p + 1) * CHANNELS == p * CHANNELS + CHANNELS) by (nonlinear_arith);
            }
            p += 1;
        }
        GenericImage { buffer, layout, _color: std::marker::PhantomData }
    }
}

impl<const CHANNELS: usize, C: Color<CHANNELS>> ImageIter<CHANNELS> for GenericImage<
    CHANNELS,
    C,
    PackedLayout,
> {
    type Pixel = C;

    fn iter_pixels(&self) -> (pixels: Vec<PixelView<'_, CHANNELS, C>>)
        ensures
            pixels.len() == self.spec_pixel_count(),
            forall|i: int|
                0 <= i < pixels.len() ==> (#[trigger] pixels@[i]).slice@ == pixel_chunk(
                    self.spec_buffer(),
                    CHANNELS as int,
                    i,
                ),
    {
        proof {
            use_type_invariant(self);
            self.lemma_fields();
            lemma_packed_layout_facts(self.layout);
        }
        let count = self.layout.pixel_count();
        let mut pixels: Vec<PixelView<'_, CHANNELS, C>> = Vec::new();
        let mut i: usize = 0;
        while i < count
            invariant
                CHANNELS > 0,
                count == self.spec_pixel_count(),
                count * CHANNELS <= self.buffer@.len(),
                self.spec_buffer() == self.buffer@,
                self.buffer@.len() <= usize::MAX,
                i <= count,
                pixels.len() == i,
                forall|k: int|
                    0 <= k < i ==> (#[trigger] pixels@[k]).slice@ == pixel_chunk(
                        self.spec_buffer(),
                        CHANNELS as int,
                        k,
                    ),
            decreases count - i,
        {
            proof {
                lemma_slot_in_buffer(i as int, count as int, CHANNELS as int, self.buffer@.len() as int);
            }
            let start = i * CHANNELS;
            let chunk = vstd::slice::slice_subrange(self.buffer.as_slice(), start, start + CHANNELS);
            pixels.push(C::as_view(slice_as_array(chunk)));
            i += 1;
        }
        pixels
    }

    fn enumerate_pixels(&self) -> (pixels: Vec<(u32, u32, PixelView<'_, CHANNELS, C>)>)
        ensures
            pixels.len() == self.spec_pixel_count(),
            forall|i: int|
                0 <= i < pixels.len() ==> {
                    let (x, y) = packed_reverse_index(
                        self.spec_layout().spec_order(),
                        self.spec_layout().spec_width() as int,
                        self.spec_layout().spec_height() as int,
                        i,
                    );
                    &&& (#[trigger] pixels@[i]).2.slice@ == pixel_chunk(
                        self.spec_buffer(),
                        CHANNELS as int,
                        i,
                    )
                    &&& pixels@[i].0 == x as u32
                    &&& pixels@[i].1 == y as u32
                },
            forall|i: int|
                0 <= i < self.spec_layout().spec_width() * self.spec_layout().spec_height() ==> {
                    &&& i < pixels.len()
                    &&& (#[trigger] pixels@[i]).0 < self.spec_layout().spec_width()
                    &&& pixels@[i].1 < self.spec_layout().spec_height()
                    &&& pixels@[i].2.slice@ == self.spec_pixel_at(
                        pixels@[i].0 as int,
                        pixels@[i].1 as int,
                    )
                },
    {
        proof {
            use_type_invariant(self);
            self.lemma_fields();
            lemma_packed_layout_facts(self.layout);
        }
        let count = self.layout.pixel_count();
        let mut pixels: Vec<(u32, u32, PixelView<'_, CHANNELS, C>)> = Vec::new();
        let mut i: usize = 0;
        while i < count
            invariant
                CHANNELS > 0,
                self.layout.spec_channels() == CHANNELS,
                count == self.spec_pixel_count(),
                count * CHANNELS <= self.buffer@.len(),
                self.spec_buffer() == self.buffer@,
                self.spec_layout() == self.layout,
                self.buffer@.len() <= usize::MAX,
                i <= count,
                pixels.len() == i,
                forall|k: int|
                    0 <= k < i ==> {
                        let (x, y) = packed_reverse_index(
                            self.layout.spec_order(),
                            self.layout.spec_width() as int,
                            self.layout.spec_height() as int,
                            k,
                        );
                        &&& (#[trigger] pixels@[k]).2.slice@ == pixel_chunk(
                            self.spec_buffer(),
                            CHANNELS as int,
                            k,
                        )
                        &&& pixels@[k].0 == x as u32
                        &&& pixels@[k].1 == y as u32
                        &&& k < self.layout.spec_width() * self.layout.spec_height() ==> {
                            &&& pixels@[k].0 < self.layout.spec_width()
                            &&& pixels@[k].1 < self.layout.spec_height()
                            &&& self.layout.spec_pixel_index(pixels@[k].0 as int, pixels@[k].1 as int)
                                == k * CHANNELS
                        }
                    },
            decreases count - i,
        {
            proof {
                lemma_slot_in_buffer(i as int, count as int, CHANNELS as int, self.buffer@.len() as int);
            }
            let start = i * CHANNELS;
            let chunk = vstd::slice::slice_subrange(self.buffer.as_slice(), start, start + CHANNELS);
            let (x, y) = self.layout.reverse_index(i);
            pixels.push((x, y, C::as_view(slice_as_array(chunk))));
            i += 1;
        }
        proof {
            let w = self.layout.spec_width() as int;
            let h = self.layout.spec_height() as int;
            assert forall|i: int| 0 <= i < w * h implies {
                &&& i < pixels.len()
                &&& (#[trigger] pixels@[i]).0 < w
                &&& pixels@[i].1 < h
                &&& pixels@[i].2.slice@ == self.spec_pixel_at(pixels@[i].0 as int, pixels@[i].1 as int)
            } by {
                let x = pixels@[i].0 as int;
                let y = pixels@[i].1 as int;
                self.layout.lemma_pixel_index(x, y);
                assert(pixels@[i].2.slice@ =~= self.spec_pixel_at(x, y));
            }
        }
        pixels
    }
}


/// Mutable views of the pixels behind `arrays`, in order.
fn pixel_views_mut<'a, const CHANNELS: usize, C: Color<CHANNELS>>(
    arrays: Vec<&'a mut [C::Scalar; CHANNELS]>,
) -> (views: Vec<PixelViewMut<'a, CHANNELS, C>>)
    ensures
        views.len() == arrays.len(),
        forall|i: int| 0 <= i < views.len() ==> *(#[trigger] views@[i]).slice == *arrays@[i],
        forall|i: int|
            0 <= i < views.len() ==> *final((#[trigger] views@[i]).slice) == *final(arrays@[i]),
{
    let ghost all = arrays@;
    let mut views: Vec<PixelViewMut<'a, CHANNELS, C>> = Vec::new();
    for array in it: arrays.into_iter()
        invariant
            it.seq() == all,
            views.len() == it.index(),
            forall|i: int| 0 <= i < views.len() ==> *(#[trigger] views@[i]).slice == *all[i],
            forall|i: int|
                0 <= i < views.len() ==> *final((#[trigger] views@[i]).slice) == *final(all[i]),
    {
        views.push(C::as_view_mut(array));
    }
    views
}

impl<const CHANNELS: usize, C: Color<CHANNELS>> ImageIterMut<CHANNELS> for GenericImage<
    CHANNELS,
    C,
    PackedLayout,
> {
    type Pixel = C;

    fn iter_pixels_mut(&mut self) -> (pixels: Vec<PixelViewMut<'_, CHANNELS, C>>)
        ensures
            pixels.len() == old(self).spec_pixel_count(),
            forall|i: int|
                0 <= i < pixels.len() ==> (*(#[trigger] pixels@[i]).slice)@ == pixel_chunk(
                    old(self).spec_buffer(),
                    CHANNELS as int,
                    i,
                ),
            final(self).spec_layout() == old(self).spec_layout(),
            final(self).spec_buffer().len() == old(self).spec_buffer().len(),
            forall|i: int, c: int|
                #![trigger final(pixels@[i].slice)@[c]]
                0 <= i < pixels.len() && 0 <= c < CHANNELS
                    ==> final(self).spec_buffer()[i * CHANNELS + c] == final(pixels@[i].slice)@[c],
            forall|k: int|
                pixels.len() * CHANNELS <= k < old(self).spec_buffer().len()
                    ==> final(self).spec_buffer()[k] == old(self).spec_buffer()[k],
    {
        proof {
            use_type_invariant(&*self);
            self.lemma_fields();
            lemma_packed_layout_facts(self.layout);
        }
        let count = self.layout.pixel_count();
        let arrays = split_arrays_mut::<C::Scalar, CHANNELS>(vec_as_mut_slice(&mut self.buffer), count);
        pixel_views_mut(arrays)
    }

    fn enumerate_pixels_mut(&mut self) -> (pixels: Vec<(u32, u32, PixelViewMut<'_, CHANNELS, C>)>)
        ensures
            pixels.len() == old(self).spec_pixel_count(),
            forall|i: int|
                0 <= i < pixels.len() ==> {
                    let (x, y) = packed_reverse_index(
                        old(self).spec_layout().spec_order(),
                        old(self).spec_layout().spec_width() as int,
                        old(self).spec_layout().spec_height() as int,
                        i,
                    );
                    &&& (*(#[trigger] pixels@[i]).2.slice)@ == pixel_chunk(
                        old(self).spec_buffer(),
                        CHANNELS as int,
                        i,
                    )
                    &&& pixels@[i].0 == x as u32
                    &&& pixels@[i].1 == y as u32
                },
            final(self).spec_layout() == old(self).spec_layout(),
            final(self).spec_buffer().len() == old(self).spec_buffer().len(),
            forall|i: int, c: int|
                #![trigger final(pixels@[i].2.slice)@[c]]
                0 <= i < pixels.len() && 0 <= c < CHANNELS
                    ==> final(self).spec_buffer()[i * CHANNELS + c] == final(pixels@[i].2.slice)@[c],
            forall|k: int|
                pixels.len() * CHANNELS <= k < old(self).spec_buffer().len()
                    ==> final(self).spec_buffer()[k] == old(self).spec_buffer()[k],
            forall|i: int|
                0 <= i < old(self).spec_layout().spec_width() * old(self).spec_layout().spec_height()
                    ==> {
                    &&& i < pixels.len()
                    &&& (#[trigger] pixels@[i]).0 < old(self).spec_layout().spec_width()
                    &&& pixels@[i].1 < old(self).spec_layout().spec_height()
                    &&& old(self).spec_layout().spec_pixel_index(pixels@[i].0 as int, pixels@[i].1 as int)
                        == i * CHANNELS
                },
    {
        proof {
            use_type_invariant(&*self);
            self.lemma_fields();
            lemma_packed_layout_facts(self.layout);
        }
        let layout = self.layout;
        let count = layout.pixel_count();
        let arrays = split_arrays_mut::<C::Scalar, CHANNELS>(vec_as_mut_slice(&mut self.buffer), count);
        let ghost all = arrays@;
        let mut pixels: Vec<(u32, u32, PixelViewMut<'_, CHANNELS, C>)> = Vec::new();
        for array in it: arrays.into_iter()
            invariant
                it.seq() == all,
                pixels.len() == it.index(),
                layout == old(self).spec_layout(),
                layout.spec_channels() == CHANNELS,
                forall|i: int| 0 <= i < pixels.len() ==> *(#[trigger] pixels@[i]).2.slice == *all[i],
                forall|i: int|
                    0 <= i < pixels.len()
                        ==> *final((#[trigger] pixels@[i]).2.slice) == *final(all[i]),
                forall|i: int|
                    0 <= i < pixels.len() ==> {
                        let (x, y) = packed_reverse_index(
                            layout.spec_order(),
                            layout.spec_width() as int,
                            layout.spec_height() as int,
                            i,
                        );
                        &&& (#[trigger] pixels@[i]).0 == x as u32
                        &&& pixels@[i].1 == y as u32
                        &&& i < layout.spec_width() * layout.spec_height() ==> {
                            &&& pixels@[i].0 < layout.spec_width()
                            &&& pixels@[i].1 < layout.spec_height()
                            &&& layout.spec_pixel_index(pixels@[i].0 as int, pixels@[i].1 as int)
                                == i * CHANNELS
                        }
                    },
        {
            let (x, y) = layout.reverse_index(pixels.len());
            pixels.push((x, y, C::as_view_mut(array)));
        }
        pixels
    }
}

} // verus!
