use std::marker::PhantomData;

use vstd::prelude::*;

use crate::color::spaces;
use crate::color::{AssumedLinear, AssumedSrgb};
use crate::error::Error;
use crate::scalar_bytes::ScalarFromBytes;
use crate::traits::{
    ChannelShrinkable, Color, ImageLayout, ImageView, InterleavedImageLayout, ScalarPrimitive,
    pixels_disjoint,
};

pub mod interleaved;
pub mod loose;
pub mod packed;
pub mod planar;

use interleaved::InterleavedLayoutOrder;
use loose::{LooseLayout, lemma_from_packed_layout, lemma_from_packed_pixels_disjoint};
use packed::{PackedLayout, lemma_chunk_in_buffer, lemma_packed_layout_facts};

verus! {

/// An image: a buffer of samples, and a layout that says where each sample of each pixel is.
#[derive(Debug)]
pub struct GenericImage<const CHANNELS: usize, C, L = PackedLayout> where
    C: Color<CHANNELS>,
    L: ImageLayout,
 {
    /// The backing buffer of the image, which contains the actual samples.
    pub(crate) buffer: Vec<C::Scalar>,
    /// The layout of the image, which dictates the size of the image and how to locate pixels in the buffer.
    pub(crate) layout: L,
    /// The color type of the pixels.
    pub(crate) _color: PhantomData<C>,
}

/// A buffer of `len` samples that all hold the same value.
fn uniform_buffer<S: Copy>(value: S, len: usize) -> (buffer: Vec<S>)
    ensures
        buffer.len() == len,
        forall|i: int| 0 <= i < len ==> buffer@[i] == value,
{
    let mut buffer: Vec<S> = Vec::with_capacity(len);
    let mut i: usize = 0;
    while i < len
        invariant
            i <= len,
            buffer.len() == i,
            forall|j: int| 0 <= j < i ==> buffer@[j] == value,
        decreases len - i,
    {
        buffer.push(value);
        i += 1;
    }
    buffer
}

impl<const CHANNELS: usize, C: Color<CHANNELS>, L: ImageLayout> GenericImage<CHANNELS, C, L> {
    /// The buffer holds every sample the layout addresses, and the layout has the channels of the color type.
    #[verifier::type_invariant]
    closed spec fn inv(self) -> bool {
        &&& self.layout.wf()
        &&& self.layout.spec_channels() == CHANNELS
        &&& self.buffer.len() >= self.layout.spec_minimum_buffer_size()
    }

    /// The layout of the image.
    pub closed spec fn spec_layout(&self) -> L {
        self.layout
    }

    /// The samples of the image.
    pub closed spec fn spec_buffer(&self) -> Seq<C::Scalar> {
        self.buffer@
    }

    /// The spec view of the fields, for code of this crate that works on the fields.
    pub(crate) proof fn lemma_fields(&self)
        ensures
            self.spec_buffer() == self.buffer@,
            self.spec_layout() == self.layout,
    {
    }

    /// The channel values of the pixel at (x, y).
    pub open spec fn spec_pixel_at(&self, x: int, y: int) -> Seq<C::Scalar> {
        Seq::new(
            CHANNELS as nat,
            |c: int| self.spec_buffer()[self.spec_layout().spec_component_index(x, y, c)],
        )
    }

    /// Creates a new image instance given a backing buffer and a layout.
    pub fn from_buffer(buffer: Vec<C::Scalar>, layout: L) -> (image: Result<Self, Error>)
        ensures
            layout.spec_channels() != CHANNELS ==> image == Err::<Self, Error>(
                Error::WrongChannelCount,
            ),
            layout.spec_channels() == CHANNELS && buffer.len()
                < layout.spec_minimum_buffer_size() ==> image == Err::<Self, Error>(
                Error::BufferTooSmall,
            ),
            layout.spec_channels() == CHANNELS && buffer.len()
                >= layout.spec_minimum_buffer_size() ==> (image matches Ok(i) && i.spec_layout()
                == layout && i.spec_buffer() == buffer@),
    {
        // Check that the layout has the correct number of channels
        if layout.channels() != CHANNELS {
            return Err(Error::WrongChannelCount);
        }
        // Check that the layout/buffer dimensions are correct
        if buffer.len() < layout.minimum_buffer_size() {
            return Err(Error::BufferTooSmall);
        }
        Ok(Self { buffer, layout, _color: PhantomData })
    }

    /// Creates a new image from the memory representation of its samples, read in the machine's byte order.
    ///
    /// Trailing bytes that do not make up a whole sample are ignored.
    pub fn from_bytes(bytes: &[u8], layout: L) -> (image: Result<Self, Error>) where
        C::Scalar: ScalarFromBytes,

        ensures
            ({
                let size = <C::Scalar as ScalarFromBytes>::spec_size() as int;
                let count = bytes@.len() as int / size;
                &&& layout.spec_channels() != CHANNELS ==> image == Err::<Self, Error>(
                    Error::WrongChannelCount,
                )
                &&& layout.spec_channels() == CHANNELS && count < layout.spec_minimum_buffer_size()
                    ==> image == Err::<Self, Error>(Error::BufferTooSmall)
                &&& layout.spec_channels() == CHANNELS && count
                    >= layout.spec_minimum_buffer_size() ==> (image matches Ok(i) && {
                    &&& i.spec_layout() == layout
                    &&& i.spec_buffer().len() == count
                    &&& forall|k: int|
                        0 <= k < count ==> <C::Scalar as ScalarFromBytes>::spec_decodes(
                            bytes@.subrange(k * size, k * size + size),
                            #[trigger] i.spec_buffer()[k],
                        )
                })
            }),
    {
        let size = <C::Scalar as ScalarFromBytes>::size();
        let count = bytes.len() / size;
        let mut scalars: Vec<C::Scalar> = Vec::with_capacity(count);
        let mut k: usize = 0;
        while k < count
            invariant
                size == <C::Scalar as ScalarFromBytes>::spec_size(),
                size > 0,
                count == bytes@.len() as int / size as int,
                bytes@.len() <= usize::MAX,
                k <= count,
                scalars.len() == k,
                forall|j: int|
                    0 <= j < k ==> <C::Scalar as ScalarFromBytes>::spec_decodes(
                        bytes@.subrange(j * size, j * size + size),
                        #[trigger] scalars@[j],
                    ),
            decreases count - k,
        {
            proof {
                lemma_chunk_in_buffer(k as int, size as int, bytes@.len() as int);
            }
            let start = k * size;
            let chunk = vstd::slice::slice_subrange(bytes, start, start + size);
            scalars.push(<C::Scalar as ScalarFromBytes>::from_ne_bytes(chunk));
            k += 1;
        }
        Self::from_buffer(scalars, layout)
    }

    /// Returns the layout of the image.
    pub fn layout(&self) -> (layout: L)
        ensures
            layout == self.spec_layout(),
    {
        self.layout
    }

    /// Returns the buffer of the image.
    pub fn buffer(&self) -> (buffer: &Vec<C::Scalar>)
        ensures
            buffer@ == self.spec_buffer(),
    {
        &self.buffer
    }

    /// Returns the buffer of the image.
    pub fn into_buffer(self) -> (buffer: Vec<C::Scalar>)
        ensures
            buffer@ == self.spec_buffer(),
    {
        self.buffer
    }

    /// Return a transmuted version of the image with a different color type.
    ///
    /// Careful; it does not convert the color, it just changes the type as-is regardless of the actual color values.
    pub fn transmute_color<DstColor>(self) -> (image: GenericImage<CHANNELS, DstColor, L>) where
        DstColor: Color<CHANNELS, Scalar = C::Scalar>,

        ensures
            image.spec_buffer() == self.spec_buffer(),
            image.spec_layout() == self.spec_layout(),
    {
        proof {
            use_type_invariant(&self);
        }
        GenericImage { buffer: self.buffer, layout: self.layout, _color: PhantomData }
    }

    /// Shrink the number of channels in the image, and transmute the color type.
    pub fn shrink_channels<const DST_CHANNELS: usize, DstColor>(self) -> (image: Result<
        GenericImage<DST_CHANNELS, DstColor, LooseLayout>,
        Error,
    >) where DstColor: Color<DST_CHANNELS, Scalar = C::Scalar>, L: ChannelShrinkable<LooseLayout>
        ensures
            DST_CHANNELS > CHANNELS ==> image is Err && image->Err_0 == Error::TooManyChannels,
            DST_CHANNELS <= CHANNELS ==> (image matches Ok(i) && {
                &&& i.spec_buffer() == self.spec_buffer()
                &&& i.spec_layout() == self.spec_layout().spec_shrunk(DST_CHANNELS)
                &&& i.spec_layout().spec_channels() == DST_CHANNELS
                &&& i.spec_layout().spec_width() == self.spec_layout().spec_width()
                &&& i.spec_layout().spec_height() == self.spec_layout().spec_height()
                &&& forall|x: int, y: int, c: int|
                    0 <= x < self.spec_layout().spec_width() && 0 <= y
                        < self.spec_layout().spec_height() && 0 <= c < DST_CHANNELS
                        ==> #[trigger] i.spec_layout().spec_component_index(x, y, c)
                        == self.spec_layout().spec_component_index(x, y, c)
            }),
    {
        proof {
            use_type_invariant(&self);
        }
        let layout = match self.layout.shrink_channels(DST_CHANNELS) {
            Ok(layout) => layout,
            Err(e) => {
                return Err(e);
            },
        };
        Ok(GenericImage { buffer: self.buffer, layout, _color: PhantomData })
    }
}

impl<const CHANNELS: usize, C: Color<CHANNELS>> GenericImage<CHANNELS, C, PackedLayout> {
    /// Creates a new row-major packed image with a contiguous buffer whose samples all hold the scalar's default value.
    pub fn new(width: u32, height: u32) -> (image: Result<Self, Error>)
        ensures
            CHANNELS == 0 ==> image == Err::<Self, Error>(Error::ZeroChannels),
            CHANNELS > 0 && width == 0 ==> image == Err::<Self, Error>(Error::ZeroWidth),
            CHANNELS > 0 && width > 0 && height == 0 ==> image == Err::<Self, Error>(
                Error::ZeroHeight,
            ),
            CHANNELS > 0 && width > 0 && height > 0 && CHANNELS * width * height > usize::MAX
                ==> image == Err::<Self, Error>(Error::LayoutTooLarge),
            CHANNELS > 0 && width > 0 && height > 0 && CHANNELS * width * height <= usize::MAX
                ==> (image matches Ok(i) && {
                &&& i.spec_layout().spec_channels() == CHANNELS
                &&& i.spec_layout().spec_width() == width
                &&& i.spec_layout().spec_height() == height
                &&& i.spec_layout().spec_order() == InterleavedLayoutOrder::RowMajor
                &&& i.spec_buffer().len() == CHANNELS * width * height
                &&& forall|a: int|
                    0 <= a < i.spec_buffer().len() ==> #[trigger] i.spec_buffer()[a]
                        == C::Scalar::spec_default()
            }),
    {
        let layout = match PackedLayout::new(CHANNELS, width, height, InterleavedLayoutOrder::RowMajor) {
            Ok(layout) => layout,
            Err(e) => {
                return Err(e);
            },
        };
        let size = layout.minimum_buffer_size();
        proof {
            lemma_packed_layout_facts(layout);
            assert(width * height * CHANNELS == CHANNELS * width * height) by (nonlinear_arith);
        }
        let buffer = uniform_buffer(C::Scalar::default_value(), size);
        Ok(Self { buffer, layout, _color: PhantomData })
    }
}

impl<const CHANNELS: usize, C: Color<CHANNELS>> GenericImage<CHANNELS, C, LooseLayout> {
    /// Creates a new image, laid out as a row-major packed image, with a contiguous buffer whose samples all hold the scalar's default value.
    pub fn new(width: u32, height: u32) -> (image: Result<Self, Error>)
        ensures
            CHANNELS == 0 ==> image == Err::<Self, Error>(Error::ZeroChannels),
            CHANNELS > 0 && width == 0 ==> image == Err::<Self, Error>(Error::ZeroWidth),
            CHANNELS > 0 && width > 0 && height == 0 ==> image == Err::<Self, Error>(
                Error::ZeroHeight,
            ),
            CHANNELS > 0 && width > 0 && height > 0 && CHANNELS * width * height > usize::MAX
                ==> image == Err::<Self, Error>(Error::LayoutTooLarge),
            CHANNELS > 0 && width > 0 && height > 0 && CHANNELS * width * height <= usize::MAX
                ==> (image matches Ok(i) && {
                &&& i.spec_layout().spec_channels() == CHANNELS
                &&& i.spec_layout().spec_width() == width
                &&& i.spec_layout().spec_height() == height
                &&& i.spec_layout().spec_channel_stride() == 1
                &&& i.spec_layout().spec_x_stride() == CHANNELS
                &&& i.spec_layout().spec_y_stride() == CHANNELS * width
                &&& pixels_disjoint(i)
                &&& i.spec_buffer().len() == CHANNELS * width * height
                &&& forall|a: int|
                    0 <= a < i.spec_buffer().len() ==> #[trigger] i.spec_buffer()[a]
                        == C::Scalar::spec_default()
            }),
    {
        let packed = match PackedLayout::new(CHANNELS, width, height, InterleavedLayoutOrder::RowMajor) {
            Ok(layout) => layout,
            Err(e) => {
                return Err(e);
            },
        };
        let size = packed.minimum_buffer_size();
        proof {
            lemma_packed_layout_facts(packed);
            lemma_from_packed_layout(packed);
            assert(width * height * CHANNELS == CHANNELS * width * height) by (nonlinear_arith);
            assert(width * CHANNELS == CHANNELS * width) by (nonlinear_arith);
        }
        let layout = LooseLayout::from(packed);
        proof {
            LooseLayout::lemma_from_packed_strides(packed);
        }
        let buffer = uniform_buffer(C::Scalar::default_value(), size);
        let image = Self { buffer, layout, _color: PhantomData };
        proof {
            assert forall|x1: int, y1: int, x2: int, y2: int|
                0 <= x1 < image.spec_dimensions().0 && 0 <= y1 < image.spec_dimensions().1 && 0
                    <= x2 < image.spec_dimensions().0 && 0 <= y2 < image.spec_dimensions().1 && (x1
                    != x2 || y1 != y2) implies #[trigger] image.spec_disjoint(x1, y1, x2, y2) by {
                assert forall|c1: int, c2: int| 0 <= c1 < CHANNELS && 0 <= c2 < CHANNELS implies
                    #[trigger] layout.spec_component_index(x1, y1, c1)
                    != #[trigger] layout.spec_component_index(x2, y2, c2) by {
                    lemma_from_packed_pixels_disjoint(packed, x1, y1, c1, x2, y2, c2);
                }
            }
        }
        Ok(image)
    }
}

impl<const CHANNELS: usize, C, L: ImageLayout> GenericImage<CHANNELS, C, L> where
    C: Color<CHANNELS, Space = spaces::UnknownRGB>,
 {
    /// Assume that the color of the image is linear RGB when it is unknown.
    pub fn assume_linear_rgb(self) -> (image: GenericImage<CHANNELS, AssumedLinear<C>, L>)
        ensures
            image.spec_buffer() == self.spec_buffer(),
            image.spec_layout() == self.spec_layout(),
    {
        self.transmute_color()
    }

    /// Assume that the color of the image is sRGB when it is unknown.
    pub fn assume_srgb(self) -> (image: GenericImage<CHANNELS, AssumedSrgb<C>, L>)
        ensures
            image.spec_buffer() == self.spec_buffer(),
            image.spec_layout() == self.spec_layout(),
    {
        self.transmute_color()
    }
}

} // verus!
