use std::marker::PhantomData;
use std::ops::Range;

use vstd::prelude::*;

use crate::error::Error;
use crate::image::interleaved::InterleavedLayoutOrder;

verus! {

/// A scalar primitive that can be used to store color channels.
pub trait ScalarPrimitive: Copy + Clone + Default {
    /// The value that `Default` gives for the scalar.
    spec fn spec_default() -> Self;

    /// The value that `Default` gives for the scalar.
    fn default_value() -> (value: Self)
        ensures
            value == Self::spec_default(),
    ;
}

impl ScalarPrimitive for u8 {
    open spec fn spec_default() -> u8 {
        0
    }

    fn default_value() -> (value: u8)
        ensures
            value == 0,
    {
        u8::default()
    }
}

impl ScalarPrimitive for u16 {
    open spec fn spec_default() -> u16 {
        0
    }

    fn default_value() -> (value: u16)
        ensures
            value == 0,
    {
        u16::default()
    }
}

impl ScalarPrimitive for u32 {
    open spec fn spec_default() -> u32 {
        0
    }

    fn default_value() -> (value: u32)
        ensures
            value == 0,
    {
        u32::default()
    }
}

impl ScalarPrimitive for u64 {
    open spec fn spec_default() -> u64 {
        0
    }

    fn default_value() -> (value: u64)
        ensures
            value == 0,
    {
        u64::default()
    }
}

impl ScalarPrimitive for u128 {
    open spec fn spec_default() -> u128 {
        0
    }

    fn default_value() -> (value: u128)
        ensures
            value == 0,
    {
        u128::default()
    }
}

impl ScalarPrimitive for usize {
    open spec fn spec_default() -> usize {
        0
    }

    fn default_value() -> (value: usize)
        ensures
            value == 0,
    {
        usize::default()
    }
}

impl ScalarPrimitive for i8 {
    open spec fn spec_default() -> i8 {
        0
    }

    fn default_value() -> (value: i8)
        ensures
            value == 0,
    {
        i8::default()
    }
}

impl ScalarPrimitive for i16 {
    open spec fn spec_default() -> i16 {
        0
    }

    fn default_value() -> (value: i16)
        ensures
            value == 0,
    {
        i16::default()
    }
}

impl ScalarPrimitive for i32 {
    open spec fn spec_default() -> i32 {
        0
    }

    fn default_value() -> (value: i32)
        ensures
            value == 0,
    {
        i32::default()
    }
}

impl ScalarPrimitive for i64 {
    open spec fn spec_default() -> i64 {
        0
    }

    fn default_value() -> (value: i64)
        ensures
            value == 0,
    {
        i64::default()
    }
}

impl ScalarPrimitive for i128 {
    open spec fn spec_default() -> i128 {
        0
    }

    fn default_value() -> (value: i128)
        ensures
            value == 0,
    {
        i128::default()
    }
}

impl ScalarPrimitive for isize {
    open spec fn spec_default() -> isize {
        0
    }

    fn default_value() -> (value: isize)
        ensures
            value == 0,
    {
        isize::default()
    }
}

/// `Default` gives zero for every integer scalar, so new images of integer samples start out zero.
pub proof fn lemma_integer_defaults_are_zero()
    ensures
        <u8 as ScalarPrimitive>::spec_default() == 0,
        <u16 as ScalarPrimitive>::spec_default() == 0,
        <u32 as ScalarPrimitive>::spec_default() == 0,
        <u64 as ScalarPrimitive>::spec_default() == 0,
        <u128 as ScalarPrimitive>::spec_default() == 0,
        <usize as ScalarPrimitive>::spec_default() == 0,
        <i8 as ScalarPrimitive>::spec_default() == 0,
        <i16 as ScalarPrimitive>::spec_default() == 0,
        <i32 as ScalarPrimitive>::spec_default() == 0,
        <i64 as ScalarPrimitive>::spec_default() == 0,
        <i128 as ScalarPrimitive>::spec_default() == 0,
        <isize as ScalarPrimitive>::spec_default() == 0,
{
}

/// The number of color channels of a pixel.
pub type Channels = usize;

/// A color channel.
pub trait ColorComponent {}

/// A color space.
pub trait ColorSpace {}

/// A color format.
pub trait ColorFormat<const CHANNELS: usize> {}

/// A generalized color.
pub trait Color<const CHANNELS: usize>: Copy + Clone + Sized {
    /// The scalar type that is used to store each channel in this color.
    type Scalar: ScalarPrimitive;

    /// The format that describes the color channels and their order in this color.
    type Format: ColorFormat<CHANNELS>;

    /// The color space in which the color is defined.
    type Space: ColorSpace;

    /// The channel values of this color, in the order of its format.
    spec fn spec_array(&self) -> [Self::Scalar; CHANNELS];

    /// The color whose channel values are `array`.
    spec fn spec_from_array(array: [Self::Scalar; CHANNELS]) -> Self;

    /// A color built from channel values gives those values back.
    proof fn lemma_from_array_to_array(array: [Self::Scalar; CHANNELS])
        ensures
            Self::spec_from_array(array).spec_array() == array,
    ;

    /// A color is determined by its channel values.
    proof fn lemma_to_array_from_array(color: Self)
        ensures
            Self::spec_from_array(color.spec_array()) == color,
    ;

    /// Returns a new pixel from an array.
    fn from_array(array: [Self::Scalar; CHANNELS]) -> (color: Self)
        ensures
            color == Self::spec_from_array(array),
    ;

    /// Returns this pixel as an array.
    fn to_array(&self) -> (array: [Self::Scalar; CHANNELS])
        ensures
            array == self.spec_array(),
    ;

    /// A view into a slice of contiguous color channels.
    fn as_view(slice: &[Self::Scalar; CHANNELS]) -> (view: PixelView<'_, CHANNELS, Self>)
        ensures
            view.slice == slice,
    {
        PixelView { slice, _format: PhantomData }
    }

    /// A mutable view into a slice of contiguous color channels.
    fn as_view_mut(slice: &mut [Self::Scalar; CHANNELS]) -> (view: PixelViewMut<'_, CHANNELS, Self>)
        ensures
            *view.slice == *old(slice),
            *final(view.slice) == *final(slice),
    {
        PixelViewMut { slice, _format: PhantomData }
    }
}

/// A color format that can be converted to and from another format.
pub trait ConvertFormatFrom<const CHANNELS: usize, From, Scalar> {
    /// The channels of a color of format `From` rearranged for this format.
    spec fn spec_convert_array(array: [Scalar; CHANNELS]) -> [Scalar; CHANNELS];

    /// Convert an array of color channels from one format to another.
    fn convert_array(array: [Scalar; CHANNELS]) -> (converted: [Scalar; CHANNELS])
        ensures
            converted == Self::spec_convert_array(array),
    ;
}

/// A color that can be converted from another color.
pub trait ConvertColorFrom<const CHANNELS: usize, From>: Sized {
    /// The color that `color` converts to.
    spec fn spec_color_from(color: From) -> Self;

    /// Convert a color from one type to another.
    fn color_from(color: From) -> (converted: Self)
        ensures
            converted == Self::spec_color_from(color),
    ;
}

/// A color that can be converted to another color.
pub trait ConvertColorTo<const CHANNELS: usize, To>: Sized {
    /// The color that `self` converts to.
    spec fn spec_convert(self) -> To;

    /// Convert a color from one type to another.
    fn convert(self) -> (converted: To)
        ensures
            converted == self.spec_convert(),
    ;
}

impl<const CHANNELS: usize, From, To, Scalar, Space, FormatTo> ConvertColorFrom<
    CHANNELS,
    From,
> for To where
    Scalar: ScalarPrimitive,
    Space: ColorSpace,
    From: Color<CHANNELS, Scalar = Scalar, Space = Space>,
    To: Color<CHANNELS, Scalar = Scalar, Space = Space, Format = FormatTo>,
    FormatTo: ColorFormat<CHANNELS> + ConvertFormatFrom<CHANNELS, From::Format, Scalar>,
 {
    open spec fn spec_color_from(color: From) -> Self {
        To::spec_from_array(FormatTo::spec_convert_array(color.spec_array()))
    }

    fn color_from(color: From) -> (converted: Self) {
        let array_in = color.to_array();
        let array_out = FormatTo::convert_array(array_in);
        To::from_array(array_out)
    }
}

impl<const CHANNELS: usize, From, To> ConvertColorTo<CHANNELS, To> for From where
    To: ConvertColorFrom<CHANNELS, From>,
 {
    open spec fn spec_convert(self) -> To {
        To::spec_color_from(self)
    }

    fn convert(self) -> (converted: To) {
        To::color_from(self)
    }
}

/// Describes a generic image layout.
pub trait ImageLayout: Copy + Clone + Sized {
    /// The layout is well formed: every component index of the image fits in a `usize`.
    spec fn wf(&self) -> bool;

    /// The number of color channels in the image.
    spec fn spec_channels(&self) -> usize;

    /// The width of the image.
    spec fn spec_width(&self) -> u32;

    /// The height of the image.
    spec fn spec_height(&self) -> u32;

    /// The number of samples a buffer needs to hold every component of the image.
    spec fn spec_minimum_buffer_size(&self) -> nat;

    /// The buffer index of color channel `channel` of the pixel at (x, y).
    spec fn spec_component_index(&self, x: int, y: int, channel: int) -> int;

    /// Every component of the image lies inside the minimum buffer, which fits in a `usize`.
    proof fn lemma_component_index_bounds(&self, x: int, y: int, channel: int)
        requires
            self.wf(),
            0 <= x < self.spec_width(),
            0 <= y < self.spec_height(),
            0 <= channel < self.spec_channels(),
        ensures
            0 <= self.spec_component_index(x, y, channel) < self.spec_minimum_buffer_size(),
            self.spec_minimum_buffer_size() <= usize::MAX,
    ;

    /// The channels of one pixel are stored at distinct indices.
    proof fn lemma_channel_indices_distinct(&self, x: int, y: int, c1: int, c2: int)
        requires
            self.wf(),
            0 <= x < self.spec_width(),
            0 <= y < self.spec_height(),
            0 <= c1 < self.spec_channels(),
            0 <= c2 < self.spec_channels(),
            c1 != c2,
        ensures
            self.spec_component_index(x, y, c1) != self.spec_component_index(x, y, c2),
    ;

    /// The number of color channels in the image.
    fn channels(&self) -> (channels: usize)
        ensures
            channels == self.spec_channels(),
            self.wf(),
    ;

    /// The width of the image.
    fn width(&self) -> (width: u32)
        ensures
            width == self.spec_width(),
            self.wf(),
    ;

    /// The height of the image.
    fn height(&self) -> (height: u32)
        ensures
            height == self.spec_height(),
            self.wf(),
    ;

    /// The minimum buffer size required to store the image.
    fn minimum_buffer_size(&self) -> (size: usize)
        ensures
            size == self.spec_minimum_buffer_size(),
            self.wf(),
    ;

    /// Get the index of a color channel at a given x, y coordinate.
    fn component_index_unchecked(&self, x: u32, y: u32, channel: usize) -> (index: usize)
        requires
            x < self.spec_width(),
            y < self.spec_height(),
            channel < self.spec_channels(),
        ensures
            index == self.spec_component_index(x as int, y as int, channel as int),
            self.wf(),
    ;

    /// Get the index of a color channel at a given x, y coordinate.
    fn component_index(&self, x: u32, y: u32, channel: usize) -> (index: Result<usize, Error>)
        ensures
            channel >= self.spec_channels() ==> index == Err::<usize, Error>(Error::ChannelOutOfBounds),
            channel < self.spec_channels() && !(x < self.spec_width() && y < self.spec_height())
                ==> index == Err::<usize, Error>(Error::PixelOutOfBounds),
            channel < self.spec_channels() && x < self.spec_width() && y < self.spec_height()
                ==> index == Ok::<usize, Error>(
                self.spec_component_index(x as int, y as int, channel as int) as usize,
            ),
    {
        if channel >= self.channels() {
            return Err(Error::ChannelOutOfBounds);
        }
        if !(x < self.width() && y < self.height()) {
            return Err(Error::PixelOutOfBounds);
        }
        Ok(self.component_index_unchecked(x, y, channel))
    }
}

/// Describes a generic image layout where all channels of a pixel are stored contiguously in memory.
pub trait InterleavedImageLayout: ImageLayout {
    /// The buffer index of the first channel of the pixel at (x, y).
    spec fn spec_pixel_index(&self, x: int, y: int) -> int;

    /// The storage order of the layout.
    spec fn spec_order(&self) -> InterleavedLayoutOrder;

    /// The channels of a pixel follow its first channel, and the whole pixel lies in the minimum buffer.
    proof fn lemma_pixel_index(&self, x: int, y: int)
        requires
            self.wf(),
            0 <= x < self.spec_width(),
            0 <= y < self.spec_height(),
        ensures
            0 <= self.spec_pixel_index(x, y),
            self.spec_pixel_index(x, y) + self.spec_channels() <= self.spec_minimum_buffer_size(),
            self.spec_minimum_buffer_size() <= usize::MAX,
            forall|c: int|
                0 <= c < self.spec_channels() ==> #[trigger] self.spec_component_index(x, y, c)
                    == self.spec_pixel_index(x, y) + c,
    ;

    /// Get the index of a pixel at a given x, y coordinate.
    fn pixel_index_unchecked(&self, x: u32, y: u32) -> (index: usize)
        requires
            x < self.spec_width(),
            y < self.spec_height(),
        ensures
            index == self.spec_pixel_index(x as int, y as int),
            self.wf(),
    ;

    /// Get the index of a pixel at a given x, y coordinate.
    fn pixel_index(&self, x: u32, y: u32) -> (index: Result<usize, Error>)
        ensures
            !(x < self.spec_width() && y < self.spec_height()) ==> index == Err::<usize, Error>(
                Error::PixelOutOfBounds,
            ),
            x < self.spec_width() && y < self.spec_height() ==> index == Ok::<usize, Error>(
                self.spec_pixel_index(x as int, y as int) as usize,
            ),
    {
        if !(x < self.width() && y < self.height()) {
            return Err(Error::PixelOutOfBounds);
        }
        Ok(self.pixel_index_unchecked(x, y))
    }

    /// Get the range of indices for a pixel at a given x, y coordinate.
    fn pixel_range_unchecked(&self, x: u32, y: u32) -> (range: Range<usize>)
        requires
            x < self.spec_width(),
            y < self.spec_height(),
        ensures
            range.start == self.spec_pixel_index(x as int, y as int),
            range.end == self.spec_pixel_index(x as int, y as int) + self.spec_channels(),
    {
        let start = self.pixel_index_unchecked(x, y);
        proof {
            self.lemma_pixel_index(x as int, y as int);
        }
        let end = start + self.channels();
        start..end
    }

    /// Get the range of indices for a pixel at a given x, y coordinate.
    fn pixel_range(&self, x: u32, y: u32) -> (range: Result<Range<usize>, Error>)
        ensures
            !(x < self.spec_width() && y < self.spec_height()) ==> range == Err::<Range<usize>, Error>(
                Error::PixelOutOfBounds,
            ),
            x < self.spec_width() && y < self.spec_height() ==> (range matches Ok(r) && r.start
                == self.spec_pixel_index(x as int, y as int) && r.end == self.spec_pixel_index(
                x as int,
                y as int,
            ) + self.spec_channels()),
    {
        if !(x < self.width() && y < self.height()) {
            return Err(Error::PixelOutOfBounds);
        }
        Ok(self.pixel_range_unchecked(x, y))
    }

    /// Get the layout storage order.
    fn order(&self) -> (order: InterleavedLayoutOrder)
        ensures
            order == self.spec_order(),
    ;

    /// Returns whether the layout is in row major order.
    fn is_row_major(&self) -> (row_major: bool)
        ensures
            row_major == (self.spec_order() == InterleavedLayoutOrder::RowMajor),
    {
        self.order() == InterleavedLayoutOrder::RowMajor
    }

    /// Returns whether the layout is in column major order.
    fn is_column_major(&self) -> (column_major: bool)
        ensures
            column_major == (self.spec_order() == InterleavedLayoutOrder::ColumnMajor),
    {
        self.order() == InterleavedLayoutOrder::ColumnMajor
    }
}

/// A layout that can give up some of its trailing color channels.
pub trait ChannelShrinkable<T: ImageLayout>: ImageLayout {
    /// The layout that keeps the first `channels` channels of this one.
    spec fn spec_shrunk(self, channels: usize) -> T;

    /// Shrink the layout to a layout with fewer channels by adjusting strides. Fails if the new layout would have more channels.
    fn shrink_channels(self, channels: usize) -> (shrunk: Result<T, Error>)
        ensures
            channels > self.spec_channels() ==> shrunk == Err::<T, Error>(Error::TooManyChannels),
            channels <= self.spec_channels() ==> shrunk == Ok::<T, Error>(
                self.spec_shrunk(channels),
            ),
            shrunk matches Ok(layout) ==> {
                &&& layout.wf()
                &&& layout.spec_channels() == channels
                &&& layout.spec_width() == self.spec_width()
                &&& layout.spec_height() == self.spec_height()
                &&& layout.spec_minimum_buffer_size() <= self.spec_minimum_buffer_size()
                &&& forall|x: int, y: int, c: int|
                    0 <= x < self.spec_width() && 0 <= y < self.spec_height() && 0 <= c < channels
                        ==> #[trigger] layout.spec_component_index(x, y, c)
                        == self.spec_component_index(x, y, c)
            },
    ;
}

/// A layout that can be cropped to a smaller region.
pub trait Croppable<T> {
    /// Crop the layout to a smaller region.
    fn crop(self, x: u32, y: u32, width: u32, height: u32) -> T;
}

/// A view into a slice of contiguous color channels.
pub struct PixelView<'a, const CHANNELS: usize, C: Color<CHANNELS>> {
    /// The slice of color channels.
    pub slice: &'a [C::Scalar; CHANNELS],
    /// The format of the color channels.
    pub _format: PhantomData<C::Format>,
}

impl<'a, const CHANNELS: usize, C: Color<CHANNELS>> PixelView<'a, CHANNELS, C> {
    /// Create a new view from a slice.
    pub fn new(slice: &'a [C::Scalar; CHANNELS]) -> (view: Self)
        ensures
            view.slice == slice,
    {
        Self { slice, _format: PhantomData }
    }

    /// Returns the color of the pixel represented by this view.
    pub fn as_color(&self) -> (color: C)
        ensures
            color == C::spec_from_array(*self.slice),
    {
        C::from_array(*self.slice)
    }
}

/// A mutable view into a slice of contiguous color channels.
pub struct PixelViewMut<'a, const CHANNELS: usize, C: Color<CHANNELS>> {
    /// The slice of color channels.
    pub slice: &'a mut [C::Scalar; CHANNELS],
    /// The format of the color channels.
    pub _format: PhantomData<C::Format>,
}

impl<'a, const CHANNELS: usize, C: Color<CHANNELS>> PixelViewMut<'a, CHANNELS, C> {
    /// Create a new mutable view from a slice.
    pub fn new(slice: &'a mut [C::Scalar; CHANNELS]) -> (view: Self)
        ensures
            *view.slice == *old(slice),
            *final(view.slice) == *final(slice),
    {
        Self { slice, _format: PhantomData }
    }

    /// Returns the color of the pixel represented by this view.
    pub fn as_color(&self) -> (color: C)
        ensures
            color == C::spec_from_array(*old(self.slice)),
    {
        C::from_array(*self.slice)
    }

    /// Convert the color of the pixel represented by this view to `DstColor`, and write the converted channel values back.
    pub fn convert_to<DstColor>(&mut self) where
        DstColor: Color<CHANNELS, Scalar = C::Scalar> + ConvertColorFrom<CHANNELS, C>,

        ensures
            *final(self).slice == converted_samples::<CHANNELS, C, DstColor>(*old(self).slice),
            *final(final(self).slice) == *final(old(self).slice),
    {
        *self.slice = convert_samples::<CHANNELS, C, DstColor>(*self.slice);
    }

    /// Set the color of the pixel represented by this view.
    pub fn set_color(&mut self, color: C)
        ensures
            *final(self).slice == color.spec_array(),
            *final(final(self).slice) == *final(old(self).slice),
    {
        *self.slice = color.to_array();
    }
}

/// The channel values of the color `samples` describe, converted to `DstColor`.
pub open spec fn converted_samples<const CHANNELS: usize, C, DstColor>(
    samples: [C::Scalar; CHANNELS],
) -> [C::Scalar; CHANNELS] where
    C: Color<CHANNELS>,
    DstColor: Color<CHANNELS, Scalar = C::Scalar> + ConvertColorFrom<CHANNELS, C>,
 {
    DstColor::spec_color_from(C::spec_from_array(samples)).spec_array()
}

/// Reads `samples` as a color of type `C`, converts it to `DstColor`, and gives back the converted channel values.
pub fn convert_samples<const CHANNELS: usize, C, DstColor>(samples: [C::Scalar; CHANNELS]) -> (converted:
    [C::Scalar; CHANNELS]) where
    C: Color<CHANNELS>,
    DstColor: Color<CHANNELS, Scalar = C::Scalar> + ConvertColorFrom<CHANNELS, C>,

    ensures
        converted == converted_samples::<CHANNELS, C, DstColor>(samples),
{
    let color_in = C::from_array(samples);
    let color_out = DstColor::color_from(color_in);
    color_out.to_array()
}

/// Trait to inspect an image.
pub trait ImageView<const CHANNELS: usize> {
    /// The type of each pixel in the image.
    type Pixel: Color<CHANNELS>;

    /// The width and height of the image.
    spec fn spec_dimensions(&self) -> (u32, u32);

    /// The channel values of the pixel at (x, y).
    spec fn spec_pixel(&self, x: int, y: int) -> Seq<<Self::Pixel as Color<CHANNELS>>::Scalar>;

    /// The pixels at (x1, y1) and (x2, y2) share no storage, so writing one leaves the other as it was.
    spec fn spec_disjoint(&self, x1: int, y1: int, x2: int, y2: int) -> bool;

    /// Convenience method that returns the number of channels the image has.
    fn channels(&self) -> (channels: usize)
        ensures
            channels == CHANNELS,
    {
        CHANNELS
    }

    /// The width and height of this image.
    fn dimensions(&self) -> (dimensions: (u32, u32))
        ensures
            dimensions == self.spec_dimensions(),
    ;

    /// The width of this image.
    fn width(&self) -> (width: u32)
        ensures
            width == self.spec_dimensions().0,
    {
        self.dimensions().0
    }

    /// The height of this image.
    fn height(&self) -> (height: u32)
        ensures
            height == self.spec_dimensions().1,
    {
        self.dimensions().1
    }

    /// Returns true if this x, y coordinate is contained inside the image.
    fn in_bounds(&self, x: u32, y: u32) -> (inside: bool)
        ensures
            inside == (x < self.spec_dimensions().0 && y < self.spec_dimensions().1),
    {
        let (width, height) = self.dimensions();
        x < width && y < height
    }

    /// Returns the pixel located at (x, y). Indexed from top left.
    fn get_pixel(&self, x: u32, y: u32) -> (pixel: Result<Self::Pixel, Error>)
        ensures
            x < self.spec_dimensions().0 && y < self.spec_dimensions().1 ==> (pixel matches Ok(p)
                && p.spec_array()@ == self.spec_pixel(x as int, y as int)),
            !(x < self.spec_dimensions().0 && y < self.spec_dimensions().1) ==> pixel == Err::<
                Self::Pixel,
                Error,
            >(Error::PixelOutOfBounds),
    {
        if !(x < self.width() && y < self.height()) {
            return Err(Error::PixelOutOfBounds);
        }
        Ok(self.get_pixel_unchecked(x, y))
    }

    /// Returns the pixel located at (x, y). Indexed from top left.
    fn get_pixel_unchecked(&self, x: u32, y: u32) -> (pixel: Self::Pixel)
        requires
            x < self.spec_dimensions().0,
            y < self.spec_dimensions().1,
        ensures
            pixel.spec_array()@ == self.spec_pixel(x as int, y as int),
    ;
}

/// No two pixels of the image share storage.
pub open spec fn pixels_disjoint<const CHANNELS: usize, I: ImageView<CHANNELS>>(image: I) -> bool {
    forall|x1: int, y1: int, x2: int, y2: int|
        0 <= x1 < image.spec_dimensions().0 && 0 <= y1 < image.spec_dimensions().1 && 0 <= x2
            < image.spec_dimensions().0 && 0 <= y2 < image.spec_dimensions().1 && (x1 != x2 || y1
            != y2) ==> #[trigger] image.spec_disjoint(x1, y1, x2, y2)
}

/// `after` is `before` with pixel (x, y) set to `pixel`: same size and storage sharing, and every pixel that shares no storage with (x, y) is unchanged.
pub open spec fn pixel_written<const CHANNELS: usize, I: ImageView<CHANNELS>>(
    before: I,
    after: I,
    x: int,
    y: int,
    pixel: Seq<<I::Pixel as Color<CHANNELS>>::Scalar>,
) -> bool {
    &&& after.spec_dimensions() == before.spec_dimensions()
    &&& after.spec_pixel(x, y) == pixel
    &&& forall|x1: int, y1: int, x2: int, y2: int|
        #[trigger] after.spec_disjoint(x1, y1, x2, y2) == before.spec_disjoint(x1, y1, x2, y2)
    &&& forall|x2: int, y2: int|
        0 <= x2 < before.spec_dimensions().0 && 0 <= y2 < before.spec_dimensions().1
            && before.spec_disjoint(x, y, x2, y2) ==> #[trigger] after.spec_pixel(x2, y2)
            == before.spec_pixel(x2, y2)
}

/// A trait for manipulating images.
pub trait ImageViewMut<const CHANNELS: usize>: ImageView<CHANNELS> + Sized {
    /// Put a pixel at location (x, y). Indexed from top left.
    fn put_pixel(&mut self, x: u32, y: u32, pixel: Self::Pixel) -> (result: Result<(), Error>)
        ensures
            x < old(self).spec_dimensions().0 && y < old(self).spec_dimensions().1 ==> {
                &&& result is Ok
                &&& pixel_written(*old(self), *final(self), x as int, y as int, pixel.spec_array()@)
            },
            !(x < old(self).spec_dimensions().0 && y < old(self).spec_dimensions().1) ==> {
                &&& result == Err::<(), Error>(Error::PixelOutOfBounds)
                &&& *final(self) == *old(self)
            },
    {
        if !(x < self.width() && y < self.height()) {
            return Err(Error::PixelOutOfBounds);
        }
        self.put_pixel_unchecked(x, y, pixel);
        Ok(())
    }

    /// Put a pixel at location (x, y). Indexed from top left.
    fn put_pixel_unchecked(&mut self, x: u32, y: u32, pixel: Self::Pixel)
        requires
            x < old(self).spec_dimensions().0,
            y < old(self).spec_dimensions().1,
        ensures
            pixel_written(*old(self), *final(self), x as int, y as int, pixel.spec_array()@),
    ;

    /// Copies all of the pixels from another image into this image.
    ///
    /// Both images must have matching sizes.
    fn copy_from<O>(&mut self, other: &O, x: u32, y: u32) -> (result: Result<(), Error>) where
        O: ImageView<CHANNELS, Pixel = Self::Pixel>,

        requires
            old(self).spec_dimensions() == other.spec_dimensions() && old(self).spec_dimensions().0
                > 0 && old(self).spec_dimensions().1 > 0 ==> x == 0 && y == 0,
        ensures
            old(self).spec_dimensions() != other.spec_dimensions() ==> {
                &&& result == Err::<(), Error>(Error::SizeMismatch)
                &&& *final(self) == *old(self)
            },
            old(self).spec_dimensions() == other.spec_dimensions() ==> {
                &&& result is Ok
                &&& final(self).spec_dimensions() == old(self).spec_dimensions()
                &&& pixels_disjoint(*old(self)) ==> forall|i: int, k: int|
                    0 <= i < other.spec_dimensions().0 && 0 <= k < other.spec_dimensions().1
                        ==> #[trigger] final(self).spec_pixel(i, k) == other.spec_pixel(i, k)
            },
    {
        if !(self.width() == other.width() && self.height() == other.height()) {
            return Err(Error::SizeMismatch);
        }
        let ghost start = *self;
        let height = self.height();
        let width = self.width();
        let mut k: u32 = 0;
        while k < height
            invariant
                0 <= k <= height,
                width == start.spec_dimensions().0,
                height == start.spec_dimensions().1,
                start.spec_dimensions() == other.spec_dimensions(),
                width > 0 && height > 0 ==> x == 0 && y == 0,
                self.spec_dimensions() == start.spec_dimensions(),
                forall|x1: int, y1: int, x2: int, y2: int|
                    #[trigger] self.spec_disjoint(x1, y1, x2, y2) == start.spec_disjoint(
                        x1,
                        y1,
                        x2,
                        y2,
                    ),
                pixels_disjoint(start) ==> forall|i2: int, k2: int|
                    0 <= i2 < width && 0 <= k2 < k ==> #[trigger] self.spec_pixel(i2, k2)
                        == other.spec_pixel(i2, k2),
            decreases height - k,
        {
            let mut i: u32 = 0;
            while i < width
                invariant
                    0 <= k < height,
                    0 <= i <= width,
                    width == start.spec_dimensions().0,
                    height == start.spec_dimensions().1,
                    start.spec_dimensions() == other.spec_dimensions(),
                    width > 0 ==> x == 0 && y == 0,
                    self.spec_dimensions() == start.spec_dimensions(),
                    forall|x1: int, y1: int, x2: int, y2: int|
                        #[trigger] self.spec_disjoint(x1, y1, x2, y2) == start.spec_disjoint(
                            x1,
                            y1,
                            x2,
                            y2,
                        ),
                    pixels_disjoint(start) ==> forall|i2: int, k2: int|
                        0 <= i2 < width && 0 <= k2 < height && (k2 < k || (k2 == k && i2 < i))
                            ==> #[trigger] self.spec_pixel(i2, k2) == other.spec_pixel(i2, k2),
                decreases width - i,
            {
                let p = other.get_pixel_unchecked(i, k);
                let ghost before = *self;
                self.put_pixel_unchecked(i + x, k + y, p);
                proof {
                    if pixels_disjoint(start) {
                        assert forall|i2: int, k2: int|
                            0 <= i2 < width && 0 <= k2 < height && (k2 < k || (k2 == k && i2 < i
                                + 1)) implies #[trigger] self.spec_pixel(i2, k2) == other.spec_pixel(
                            i2,
                            k2,
                        ) by {
                            if i2 != i || k2 != k {
                                assert(start.spec_disjoint(i as int, k as int, i2, k2));
                                assert(before.spec_disjoint(i as int, k as int, i2, k2));
                            }
                        }
                    }
                }
                i += 1;
            }
            k += 1;
        }
        Ok(())
    }
}

/// Converts an image into another image type.
pub trait ConvertImage<T> {
    /// Convert the image.
    fn convert_image(self) -> T;
}

/// Trait for iterating over the pixels of an image.
pub trait ImageIter<const CHANNELS: usize> {
    /// The type of each pixel in the image.
    type Pixel: Color<CHANNELS>;

    /// Returns the pixels of the image, in storage order.
    fn iter_pixels(&self) -> Vec<PixelView<'_, CHANNELS, Self::Pixel>>;

    /// Returns the pixels of the image and their respective coordinates, in storage order.
    fn enumerate_pixels(&self) -> Vec<(u32, u32, PixelView<'_, CHANNELS, Self::Pixel>)>;
}

/// Trait for mutating the pixels of an image.
pub trait ImageIterMut<const CHANNELS: usize> {
    /// The type of each pixel in the image.
    type Pixel: Color<CHANNELS>;

    /// Returns mutable views of the pixels of the image, in storage order.
    fn iter_pixels_mut(&mut self) -> Vec<PixelViewMut<'_, CHANNELS, Self::Pixel>>;

    /// Returns mutable views of the pixels of the image and their respective coordinates, in storage order.
    fn enumerate_pixels_mut(&mut self) -> Vec<(u32, u32, PixelViewMut<'_, CHANNELS, Self::Pixel>)>;
}

} // verus!
