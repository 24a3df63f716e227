use vstd::prelude::*;

use crate::error::Error;
use crate::image::loose::wide_mul;
use crate::layout::ImageLayout;
use crate::pixel::{Pixel, PixelView, PixelViewMut};
use crate::util::{lemma_scaled_below, split_slice_mut, vec_as_mut_slice};

verus! {

/// Iterating over the pixels of an image whose pixels know their number of channels.
pub trait ImageIter {
    /// The type of pixel.
    type Pixel: Pixel;

    /// Returns the pixels of the image, in storage order.
    fn iter_pixels(&self) -> Vec<PixelView<'_, Self::Pixel>>;

    /// Returns the pixels of the image and their respective coordinates, in storage order.
    fn enumerate_pixels(&self) -> Vec<(u32, u32, PixelView<'_, Self::Pixel>)>;
}

/// Mutating the pixels of an image whose pixels know their number of channels.
pub trait ImageIterMut {
    /// The type of pixel.
    type Pixel: Pixel;

    /// Returns mutable views of the pixels of the image, in storage order.
    fn iter_pixels_mut(&mut self) -> Vec<PixelViewMut<'_, Self::Pixel>>;

    /// Returns mutable views of the pixels of the image and their respective coordinates, in storage order.
    fn enumerate_pixels_mut(&mut self) -> Vec<(u32, u32, PixelViewMut<'_, Self::Pixel>)>;
}

/// The coordinates of the `k`-th pixel of a strided layout in storage order: along the rows for a
/// row-major layout, along the columns otherwise.
pub open spec fn strided_position(layout: ImageLayout, k: int) -> (int, int) {
    if layout.spec_is_row_major() {
        (k % (layout.width as int), k / (layout.width as int))
    } else {
        (k / (layout.height as int), k % (layout.height as int))
    }
}

/// One past the last sample that a pixel of `channels` samples reaches in a non-empty strided layout.
pub open spec fn strided_extent(layout: ImageLayout, channels: int) -> int {
    (layout.width - 1) * layout.stride_x + (layout.height - 1) * layout.stride_y + channels
}

/// The samples of the pixel at (x, y) of a strided image.
pub open spec fn strided_pixel<S>(buffer: Seq<S>, layout: ImageLayout, channels: int, x: int, y: int) -> Seq<S> {
    buffer.subrange(layout.spec_index(x, y), layout.spec_index(x, y) + channels)
}

/// The `k`-th item of a walk over a strided image in storage order is the pixel at (x, y), with
/// samples `samples`.
pub open spec fn strided_item<S>(
    buffer: Seq<S>,
    layout: ImageLayout,
    channels: int,
    k: int,
    x: u32,
    y: u32,
    samples: Seq<S>,
) -> bool {
    let (px, py) = strided_position(layout, k);
    &&& 0 <= px < layout.width
    &&& 0 <= py < layout.height
    &&& x == px
    &&& y == py
    &&& samples == strided_pixel(buffer, layout, channels, px, py)
}

/// Sample `j` belongs to some pixel of `channels` samples of the strided layout.
pub open spec fn strided_covered(layout: ImageLayout, channels: int, j: int) -> bool {
    exists|x: int, y: int|
        0 <= x < layout.width && 0 <= y < layout.height && #[trigger] layout.spec_index(x, y) <= j
            < layout.spec_index(x, y) + channels
}

/// The pixels of `channels` samples of a strided layout do not overlap: within a line, the stride
/// between pixels steps over a whole pixel, and the stride between lines steps over a whole line.
pub open spec fn strided_pixels_apart(layout: ImageLayout, channels: int) -> bool {
    let w = layout.width as int;
    let h = layout.height as int;
    let sx = layout.stride_x as int;
    let sy = layout.stride_y as int;
    if layout.spec_is_row_major() {
        &&& w > 1 ==> sx >= channels
        &&& h > 1 ==> sy >= (w - 1) * sx + channels
    } else {
        &&& h > 1 ==> sy >= channels
        &&& w > 1 ==> sx >= (h - 1) * sy + channels
    }
}

/// A packed layout of pixels of `channels` samples, row major or column major, is well formed,
/// keeps its pixels exactly `channels` samples apart without overlap, and reaches exactly
/// `channels * width * height` samples, so a buffer of that many samples holds it.
pub proof fn lemma_packed_layouts_hold_their_pixels(channels: usize, width: u32, height: u32)
    requires
        channels > 0,
        width > 0,
        height > 0,
        channels * width * height <= usize::MAX,
    ensures
        ({
            let row = ImageLayout {
                width,
                height,
                stride_x: channels,
                stride_y: (channels * width) as usize,
            };
            &&& row.spec_is_well_formed()
            &&& strided_pixels_apart(row, channels as int)
            &&& strided_extent(row, channels as int) == channels * width * height
        }),
        ({
            let column = ImageLayout {
                width,
                height,
                stride_x: (channels * height) as usize,
                stride_y: channels,
            };
            &&& column.spec_is_well_formed()
            &&& strided_pixels_apart(column, channels as int)
            &&& strided_extent(column, channels as int) == channels * width * height
        }),
{
    let c = channels as int;
    let w = width as int;
    let h = height as int;
    assert(c * w <= c * w * h && c * h <= c * w * h && c * w >= c && c * h >= c) by (nonlinear_arith)
        requires
            c > 0,
            w > 0,
            h > 0,
    ;
    crate::layout::lemma_packed_layouts_are_major(channels, width, height);
    assert((w - 1) * c + c == c * w && (h - 1) * c + c == c * h) by (nonlinear_arith);
    assert((w - 1) * c + (h - 1) * (c * w) + c == c * w * h) by (nonlinear_arith);
    assert((w - 1) * (c * h) + (h - 1) * c + c == c * w * h) by (nonlinear_arith);
    assert(c >= (c * h) * w ==> w == 1 && h == 1) by (nonlinear_arith)
        requires
            c > 0,
            w > 0,
            h > 0,
    ;
}

/// A pixel in bounds lies inside the extent of the layout.
proof fn lemma_pixel_in_extent(layout: ImageLayout, channels: int, x: int, y: int)
    requires
        0 <= x < layout.width,
        0 <= y < layout.height,
        channels >= 0,
    ensures
        0 <= layout.spec_index(x, y),
        layout.spec_index(x, y) + channels <= strided_extent(layout, channels),
{
    let w = layout.width as int;
    let h = layout.height as int;
    let sx = layout.stride_x as int;
    let sy = layout.stride_y as int;
    lemma_scaled_below(x, w, sx);
    lemma_scaled_below(y, h, sy);
    assert((w - 1) * sx == w * sx - sx && (h - 1) * sy == h * sy - sy) by (nonlinear_arith);
}

/// Whether the pixels of `channels` samples of a well-formed strided layout do not overlap.
fn pixels_apart(layout: ImageLayout, channels: usize) -> (apart: bool)
    requires
        layout.spec_is_well_formed(),
    ensures
        apart == strided_pixels_apart(layout, channels as int),
{
    let row_major = layout.is_row_major();
    let (minor_stride, minor_count, major_stride, major_count) = if row_major {
        (layout.stride_x, layout.width, layout.stride_y, layout.height)
    } else {
        (layout.stride_y, layout.height, layout.stride_x, layout.width)
    };
    proof {
        assert(minor_stride * (minor_count - 1) <= 0x1_0000_0000_0000_0000_0000_0000)
            by (nonlinear_arith)
            requires
                0 <= minor_stride <= 0xffff_ffff_ffff_ffff,
                0 <= minor_count - 1 <= 0xffff_ffff,
        ;
        assert(minor_stride * (minor_count - 1) == (minor_count - 1) * minor_stride)
            by (nonlinear_arith);
    }
    let line = wide_mul(minor_stride, minor_count - 1) + channels as u128;
    (minor_count <= 1 || minor_stride >= channels) && (major_count <= 1 || major_stride as u128
        >= line)
}

/// An image whose pixels sit in a buffer at the places a strided layout gives.
pub struct Image<P: Pixel> {
    /// The samples of the image.
    buffer: Vec<P::Scalar>,
    /// Where each pixel starts in the buffer.
    layout: ImageLayout,
}

impl<P: Pixel> Image<P> {
    /// The layout is well formed and the buffer holds every sample of every pixel.
    #[verifier::type_invariant]
    closed spec fn inv(self) -> bool {
        &&& self.layout.spec_is_well_formed()
        &&& strided_pixels_apart(self.layout, P::CHANNELS as int)
        &&& strided_extent(self.layout, P::CHANNELS as int) <= self.buffer.len()
    }

    /// The layout of the image.
    pub closed spec fn spec_layout(&self) -> ImageLayout {
        self.layout
    }

    /// The samples of the image.
    pub closed spec fn spec_buffer(&self) -> Seq<P::Scalar> {
        self.buffer@
    }

    /// The samples of the pixel at (x, y).
    pub open spec fn spec_pixel_samples(&self, x: int, y: int) -> Seq<P::Scalar> {
        strided_pixel(self.spec_buffer(), self.spec_layout(), P::CHANNELS as int, x, y)
    }

    /// Creates an image from a buffer and a strided layout; fails unless the layout is well formed,
    /// its pixels do not overlap, and the buffer holds every sample of every pixel.
    pub fn from_buffer(buffer: Vec<P::Scalar>, layout: ImageLayout) -> (image: Result<Self, Error>)
        ensures
            !(layout.spec_is_well_formed() && strided_pixels_apart(layout, P::CHANNELS as int))
                ==> image == Err::<Self, Error>(Error::InvalidStrides),
            layout.spec_is_well_formed() && strided_pixels_apart(layout, P::CHANNELS as int)
                && strided_extent(layout, P::CHANNELS as int) > buffer.len() ==> image == Err::<
                Self,
                Error,
            >(Error::BufferTooSmall),
            layout.spec_is_well_formed() && strided_pixels_apart(layout, P::CHANNELS as int)
                && strided_extent(layout, P::CHANNELS as int) <= buffer.len() ==> (image matches Ok(
                i,
            ) && i.spec_layout() == layout && i.spec_buffer() == buffer@),
    {
        if !layout.is_well_formed() {
            return Err(Error::InvalidStrides);
        }
        if !pixels_apart(layout, P::CHANNELS) {
            return Err(Error::InvalidStrides);
        }
        proof {
            assert(layout.stride_x * (layout.width - 1) <= 0x1_0000_0000_0000_0000_0000_0000
                && layout.stride_y * (layout.height - 1) <= 0x1_0000_0000_0000_0000_0000_0000)
                by (nonlinear_arith)
                requires
                    0 <= layout.stride_x <= 0xffff_ffff_ffff_ffff,
                    0 <= layout.stride_y <= 0xffff_ffff_ffff_ffff,
                    0 <= layout.width - 1 <= 0xffff_ffff,
                    0 <= layout.height - 1 <= 0xffff_ffff,
            ;
        }
        let extent = wide_mul(layout.stride_x, layout.width - 1) + wide_mul(
            layout.stride_y,
            layout.height - 1,
        ) + P::CHANNELS as u128;
        if extent > buffer.len() as u128 {
            return Err(Error::BufferTooSmall);
        }
        Ok(Image { buffer, layout })
    }

    /// The layout of the image.
    pub fn layout(&self) -> (layout: ImageLayout)
        ensures
            layout == self.spec_layout(),
    {
        self.layout
    }

    /// The samples of the image.
    pub fn buffer(&self) -> (buffer: &Vec<P::Scalar>)
        ensures
            buffer@ == self.spec_buffer(),
    {
        &self.buffer
    }

    /// The strides to walk the image in storage order: the stride between lines, the number of
    /// pixels of a line, the stride between pixels of a line, and the number of channels.
    pub fn iter_strides(&self) -> (strides: (usize, usize, usize, usize))
        ensures
            strides == if self.spec_layout().spec_is_row_major() {
                (
                    self.spec_layout().stride_y,
                    self.spec_layout().width as usize,
                    self.spec_layout().stride_x,
                    P::CHANNELS,
                )
            } else {
                (
                    self.spec_layout().stride_x,
                    self.spec_layout().height as usize,
                    self.spec_layout().stride_y,
                    P::CHANNELS,
                )
            },
    {
        if self.layout.is_row_major() {
            // Iterate over rows first and then columns
            (self.layout.stride_y, self.layout.width as usize, self.layout.stride_x, P::CHANNELS)
        } else {
            // Iterate over columns first and then rows
            (self.layout.stride_x, self.layout.height as usize, self.layout.stride_y, P::CHANNELS)
        }
    }
}

impl<P: Pixel> ImageIter for Image<P> {
    type Pixel = P;

    fn iter_pixels(&self) -> (pixels: Vec<PixelView<'_, P>>)
        ensures
            pixels.len() == self.spec_layout().width * self.spec_layout().height,
            forall|k: int|
                0 <= k < pixels.len() ==> (#[trigger] pixels@[k]).slice@ == self.spec_pixel_samples(
                    strided_position(self.spec_layout(), k).0,
                    strided_position(self.spec_layout(), k).1,
                ),
    {
        let enumerated = self.enumerate_pixels();
        let ghost all = enumerated@;
        let mut pixels: Vec<PixelView<'_, P>> = Vec::new();
        for item in it: enumerated.into_iter()
            invariant
                it.seq() == all,
                pixels.len() == it.index(),
                forall|k: int| 0 <= k < pixels.len() ==> (#[trigger] pixels@[k]).slice == all[k].2.slice,
        {
            pixels.push(item.2);
        }
        pixels
    }

    fn enumerate_pixels(&self) -> (pixels: Vec<(u32, u32, PixelView<'_, P>)>)
        ensures
            pixels.len() == self.spec_layout().width * self.spec_layout().height,
            forall|k: int|
                0 <= k < pixels.len() ==> strided_item(
                    self.spec_buffer(),
                    self.spec_layout(),
                    P::CHANNELS as int,
                    k,
                    (#[trigger] pixels@[k]).0,
                    pixels@[k].1,
                    pixels@[k].2.slice@,
                ),
    {
        proof {
            use_type_invariant(self);
        }
        let layout = self.layout;
        let row_major = layout.is_row_major();
        let (outer_count, inner_count) = if row_major {
            (layout.height, layout.width)
        } else {
            (layout.width, layout.height)
        };
        let channels = P::CHANNELS;
        let mut pixels: Vec<(u32, u32, PixelView<'_, P>)> = Vec::new();
        let mut outer: u32 = 0;
        while outer < outer_count
            invariant
                layout == self.spec_layout(),
                layout.spec_is_well_formed(),
                strided_extent(layout, channels as int) <= self.buffer@.len(),
                self.buffer@.len() <= usize::MAX,
                channels == P::CHANNELS,
                row_major == layout.spec_is_row_major(),
                row_major ==> outer_count == layout.height && inner_count == layout.width,
                !row_major ==> outer_count == layout.width && inner_count == layout.height,
                outer <= outer_count,
                pixels.len() == outer * inner_count,
                forall|k: int|
                    0 <= k < pixels.len() ==> strided_item(
                        self.buffer@,
                        layout,
                        channels as int,
                        k,
                        (#[trigger] pixels@[k]).0,
                        pixels@[k].1,
                        pixels@[k].2.slice@,
                    ),
            decreases outer_count - outer,
        {
            let mut inner: u32 = 0;
            while inner < inner_count
                invariant
                    layout == self.spec_layout(),
                    layout.spec_is_well_formed(),
                    strided_extent(layout, channels as int) <= self.buffer@.len(),
                    self.buffer@.len() <= usize::MAX,
                    channels == P::CHANNELS,
                    row_major == layout.spec_is_row_major(),
                    row_major ==> outer_count == layout.height && inner_count == layout.width,
                    !row_major ==> outer_count == layout.width && inner_count == layout.height,
                    outer < outer_count,
                    inner <= inner_count,
                    pixels.len() == outer * inner_count + inner,
                    forall|k: int|
                        0 <= k < pixels.len() ==> strided_item(
                            self.buffer@,
                            layout,
                            channels as int,
                            k,
                            (#[trigger] pixels@[k]).0,
                            pixels@[k].1,
                            pixels@[k].2.slice@,
                        ),
                decreases inner_count - inner,
            {
                let (x, y) = if row_major {
                    (inner, outer)
                } else {
                    (outer, inner)
                };
                proof {
                    lemma_pixel_in_extent(layout, channels as int, x as int, y as int);
                    let k = pixels.len() as int;
                    vstd::arithmetic::div_mod::lemma_fundamental_div_mod_converse(
                        k,
                        inner_count as int,
                        outer as int,
                        inner as int,
                    );
                }
                let start = layout.index(x, y);
                let view = P::as_view_unchecked(
                    vstd::slice::slice_subrange(self.buffer.as_slice(), start, start + channels),
                );
                pixels.push((x, y, view));
                proof {
                    let k = pixels.len() - 1;
                    assert(strided_item(
                        self.buffer@,
                        layout,
                        channels as int,
                        k,
                        pixels@[k].0,
                        pixels@[k].1,
                        pixels@[k].2.slice@,
                    ));
                }
                inner += 1;
            }
            proof {
                assert((outer + 1) * inner_count == outer * inner_count + inner_count)
                    by (nonlinear_arith);
            }
            outer += 1;
        }
        proof {
            assert(layout.height * layout.width == layout.width * layout.height) by (nonlinear_arith);
        }
        pixels
    }
}

impl<P: Pixel> ImageIterMut for Image<P> {
    type Pixel = P;

    fn iter_pixels_mut(&mut self) -> (pixels: Vec<PixelViewMut<'_, P>>)
        ensures
            pixels.len() == old(self).spec_layout().width * old(self).spec_layout().height,
            forall|k: int|
                0 <= k < pixels.len() ==> (#[trigger] pixels@[k]).slice@
                    == old(self).spec_pixel_samples(
                    strided_position(old(self).spec_layout(), k).0,
                    strided_position(old(self).spec_layout(), k).1,
                ),
            final(self).spec_layout() == old(self).spec_layout(),
            final(self).spec_buffer().len() == old(self).spec_buffer().len(),
            forall|k: int, c: int|
                #![trigger final(pixels@[k].slice)@[c]]
                0 <= k < pixels.len() && 0 <= c < P::CHANNELS ==> final(self).spec_buffer()[
                old(self).spec_layout().spec_index(
                    strided_position(old(self).spec_layout(), k).0,
                    strided_position(old(self).spec_layout(), k).1,
                ) + c] == final(pixels@[k].slice)@[c],
            forall|j: int|
                0 <= j < old(self).spec_buffer().len() && !strided_covered(
                    old(self).spec_layout(),
                    P::CHANNELS as int,
                    j,
                ) ==> #[trigger] final(self).spec_buffer()[j] == old(self).spec_buffer()[j],
    {
        let enumerated = self.enumerate_pixels_mut();
        let ghost all = enumerated@;
        let mut pixels: Vec<PixelViewMut<'_, P>> = Vec::new();
        for item in it: enumerated.into_iter()
            invariant
                it.seq() == all,
                pixels.len() == it.index(),
                forall|k: int|
                    0 <= k < pixels.len() ==> (#[trigger] pixels@[k]).slice@ == all[k].2.slice@,
                forall|k: int|
                    0 <= k < pixels.len()
                        ==> final((#[trigger] pixels@[k]).slice)@ == final(all[k].2.slice)@,
        {
            pixels.push(item.2);
        }
        pixels
    }

    fn enumerate_pixels_mut(&mut self) -> (pixels: Vec<(u32, u32, PixelViewMut<'_, P>)>)
        ensures
            pixels.len() == old(self).spec_layout().width * old(self).spec_layout().height,
            forall|k: int|
                0 <= k < pixels.len() ==> strided_item(
                    old(self).spec_buffer(),
                    old(self).spec_layout(),
                    P::CHANNELS as int,
                    k,
                    (#[trigger] pixels@[k]).0,
                    pixels@[k].1,
                    pixels@[k].2.slice@,
                ),
            forall|k1: int, k2: int|
                0 <= k1 < k2 < pixels.len() ==> old(self).spec_layout().spec_index(
                    (#[trigger] pixels@[k1]).0 as int,
                    pixels@[k1].1 as int,
                ) + P::CHANNELS <= old(self).spec_layout().spec_index(
                    (#[trigger] pixels@[k2]).0 as int,
                    pixels@[k2].1 as int,
                ),
            final(self).spec_layout() == old(self).spec_layout(),
            final(self).spec_buffer().len() == old(self).spec_buffer().len(),
            forall|k: int, c: int|
                #![trigger final(pixels@[k].2.slice)@[c]]
                0 <= k < pixels.len() && 0 <= c < P::CHANNELS ==> final(self).spec_buffer()[
                old(self).spec_layout().spec_index(pixels@[k].0 as int, pixels@[k].1 as int) + c]
                    == final(pixels@[k].2.slice)@[c],
            forall|j: int|
                0 <= j < old(self).spec_buffer().len() && !strided_covered(
                    old(self).spec_layout(),
                    P::CHANNELS as int,
                    j,
                ) ==> #[trigger] final(self).spec_buffer()[j] == old(self).spec_buffer()[j],
    {
        proof {
            use_type_invariant(&*self);
        }
        let ghost original = self.buffer@;
        let layout = self.layout;
        let row_major = layout.is_row_major();
        let (outer_count, inner_count) = if row_major {
            (layout.height, layout.width)
        } else {
            (layout.width, layout.height)
        };
        let ghost major: int = if row_major {
            layout.stride_y as int
        } else {
            layout.stride_x as int
        };
        let ghost minor: int = if row_major {
            layout.stride_x as int
        } else {
            layout.stride_y as int
        };
        let channels = P::CHANNELS;
        let mut rest: &mut [P::Scalar] = vec_as_mut_slice(&mut self.buffer);
        let ghost fin: Seq<P::Scalar> = final(rest)@;
        let mut consumed: usize = 0;
        let mut pixels: Vec<(u32, u32, PixelViewMut<'_, P>)> = Vec::new();
        let mut outer: u32 = 0;
        while outer < outer_count
            invariant
                layout == old(self).spec_layout(),
                layout.spec_is_well_formed(),
                strided_pixels_apart(layout, channels as int),
                strided_extent(layout, channels as int) <= original.len(),
                original.len() <= usize::MAX,
                original == old(self).spec_buffer(),
                channels == P::CHANNELS,
                row_major == layout.spec_is_row_major(),
                row_major ==> outer_count == layout.height && inner_count == layout.width,
                !row_major ==> outer_count == layout.width && inner_count == layout.height,
                row_major ==> major == layout.stride_y && minor == layout.stride_x,
                !row_major ==> major == layout.stride_x && minor == layout.stride_y,
                outer <= outer_count,
                pixels.len() == outer * inner_count,
                outer == 0 ==> consumed == 0,
                outer > 0 ==> consumed == (outer - 1) * major + (inner_count - 1) * minor
                    + channels,
                consumed <= original.len(),
                rest@ == original.subrange(consumed as int, original.len() as int),
                fin.len() == consumed + final(rest)@.len(),
                fin.subrange(consumed as int, fin.len() as int) == final(rest)@,
                forall|k: int|
                    0 <= k < pixels.len() ==> strided_item(
                        original,
                        layout,
                        channels as int,
                        k,
                        (#[trigger] pixels@[k]).0,
                        pixels@[k].1,
                        pixels@[k].2.slice@,
                    ),
                forall|k: int|
                    0 <= k < pixels.len() ==> layout.spec_index(
                        (#[trigger] pixels@[k]).0 as int,
                        pixels@[k].1 as int,
                    ) + channels <= consumed,
                forall|k1: int, k2: int|
                    0 <= k1 < k2 < pixels.len() ==> layout.spec_index(
                        (#[trigger] pixels@[k1]).0 as int,
                        pixels@[k1].1 as int,
                    ) + channels <= layout.spec_index(
                        (#[trigger] pixels@[k2]).0 as int,
                        pixels@[k2].1 as int,
                    ),
                forall|k: int, c: int|
                    #![trigger final(pixels@[k].2.slice)@[c]]
                    0 <= k < pixels.len() && 0 <= c < channels ==> fin[layout.spec_index(
                        pixels@[k].0 as int,
                        pixels@[k].1 as int,
                    ) + c] == final(pixels@[k].2.slice)@[c],
                forall|j: int|
                    0 <= j < consumed && !strided_covered(layout, channels as int, j)
                        ==> #[trigger] fin[j] == original[j],
            decreases outer_count - outer,
        {
            let mut inner: u32 = 0;
            while inner < inner_count
                invariant
                    layout == old(self).spec_layout(),
                    layout.spec_is_well_formed(),
                    strided_pixels_apart(layout, channels as int),
                    strided_extent(layout, channels as int) <= original.len(),
                    original.len() <= usize::MAX,
                    channels == P::CHANNELS,
                    row_major == layout.spec_is_row_major(),
                    row_major ==> outer_count == layout.height && inner_count == layout.width,
                    !row_major ==> outer_count == layout.width && inner_count == layout.height,
                    row_major ==> major == layout.stride_y && minor == layout.stride_x,
                    !row_major ==> major == layout.stride_x && minor == layout.stride_y,
                    outer < outer_count,
                    inner <= inner_count,
                    pixels.len() == outer * inner_count + inner,
                    inner == 0 && outer == 0 ==> consumed == 0,
                    inner == 0 && outer > 0 ==> consumed == (outer - 1) * major + (inner_count - 1)
                        * minor + channels,
                    inner > 0 ==> consumed == outer * major + (inner - 1) * minor + channels,
                    consumed <= original.len(),
                    rest@ == original.subrange(consumed as int, original.len() as int),
                    fin.len() == consumed + final(rest)@.len(),
                    fin.subrange(consumed as int, fin.len() as int) == final(rest)@,
                    forall|k: int|
                        0 <= k < pixels.len() ==> strided_item(
                            original,
                            layout,
                            channels as int,
                            k,
                            (#[trigger] pixels@[k]).0,
                            pixels@[k].1,
                            pixels@[k].2.slice@,
                        ),
                    forall|k: int|
                        0 <= k < pixels.len() ==> layout.spec_index(
                            (#[trigger] pixels@[k]).0 as int,
                            pixels@[k].1 as int,
                        ) + channels <= consumed,
                    forall|k1: int, k2: int|
                        0 <= k1 < k2 < pixels.len() ==> layout.spec_index(
                            (#[trigger] pixels@[k1]).0 as int,
                            pixels@[k1].1 as int,
                        ) + channels <= layout.spec_index(
                            (#[trigger] pixels@[k2]).0 as int,
                            pixels@[k2].1 as int,
                        ),
                    forall|k: int, c: int|
                        #![trigger final(pixels@[k].2.slice)@[c]]
                        0 <= k < pixels.len() && 0 <= c < channels ==> fin[layout.spec_index(
                            pixels@[k].0 as int,
                            pixels@[k].1 as int,
                        ) + c] == final(pixels@[k].2.slice)@[c],
                    forall|j: int|
                        0 <= j < consumed && !strided_covered(layout, channels as int, j)
                            ==> #[trigger] fin[j] == original[j],
                decreases inner_count - inner,
            {
                let (x, y) = if row_major {
                    (inner, outer)
                } else {
                    (outer, inner)
                };
                proof {
                    lemma_pixel_in_extent(layout, channels as int, x as int, y as int);
                    let k = pixels.len() as int;
                    vstd::arithmetic::div_mod::lemma_fundamental_div_mod_converse(
                        k,
                        inner_count as int,
                        outer as int,
                        inner as int,
                    );
                    assert(layout.spec_index(x as int, y as int) == outer * major + inner * minor);
                    if inner > 0 {
                        assert((inner - 1) * minor + minor == inner * minor) by (nonlinear_arith);
                    } else if outer > 0 {
                        assert((outer - 1) * major + major == outer * major) by (nonlinear_arith);
                        assert(outer * major + inner * minor >= outer * major) by (nonlinear_arith)
                            requires
                                inner >= 0,
                                minor >= 0,
                        ;
                    } else {
                        assert(0 <= inner * minor) by (nonlinear_arith)
                            requires
                                inner >= 0,
                                minor >= 0,
                        ;
                        assert(outer * major == 0) by (nonlinear_arith)
                            requires
                                outer == 0,
                        ;
                    }
                }
                let start = layout.index(x, y);
                let ghost before_rest = final(rest)@;
                let ghost rest_now = rest@;
                let ghost old_consumed = consumed as int;
                let (skip, tail) = split_slice_mut(rest, start - consumed);
                let (samples, after) = split_slice_mut(tail, channels);
                proof {
                    assert(final(skip)@ == skip@);
                    assert(samples@ =~= original.subrange(start as int, start + channels));
                    assert(after@ =~= original.subrange(start + channels, original.len() as int));
                    let s = start as int;
                    let ch = channels as int;
                    assert(before_rest =~= final(skip)@ + (final(samples)@ + final(after)@));
                    assert forall|j: int| old_consumed <= j < s implies #[trigger] fin[j]
                        == original[j] by {
                        assert(fin.subrange(old_consumed, fin.len() as int)[j - old_consumed]
                            == before_rest[j - old_consumed]);
                        assert(skip@[j - old_consumed] == rest_now[j - old_consumed]);
                    }
                    assert forall|c: int| 0 <= c < ch implies fin[s + c] == final(samples)@[c] by {
                        assert(fin.subrange(old_consumed, fin.len() as int)[s - old_consumed + c]
                            == before_rest[s - old_consumed + c]);
                    }
                    assert forall|j: int| s <= j < s + ch implies strided_covered(layout, ch, j) by {
                        assert(layout.spec_index(x as int, y as int) <= j < layout.spec_index(
                            x as int,
                            y as int,
                        ) + ch);
                    }
                    assert forall|m: int| 0 <= m < final(after)@.len() implies fin.subrange(
                        s + ch,
                        fin.len() as int,
                    )[m] == final(after)@[m] by {
                        assert(fin.subrange(old_consumed, fin.len() as int)[s - old_consumed + ch
                            + m] == before_rest[s - old_consumed + ch + m]);
                    }
                    assert(fin.subrange(s + ch, fin.len() as int) =~= final(after)@);
                }
                pixels.push((x, y, PixelViewMut::new_unchecked(samples)));
                proof {
                    let k = pixels.len() - 1;
                    assert(strided_item(
                        original,
                        layout,
                        channels as int,
                        k,
                        pixels@[k].0,
                        pixels@[k].1,
                        pixels@[k].2.slice@,
                    ));
                }
                rest = after;
                consumed = start + channels;
                inner += 1;
            }
            proof {
                assert((outer + 1) * inner_count == outer * inner_count + inner_count)
                    by (nonlinear_arith);
            }
            outer += 1;
        }
        proof {
            assert(layout.height * layout.width == layout.width * layout.height) by (nonlinear_arith);
            assert(final(rest)@ == rest@);
            assert forall|j: int| consumed <= j < original.len() implies #[trigger] fin[j]
                == original[j] by {
                assert(fin.subrange(consumed as int, fin.len() as int)[j - consumed] == fin[j]);
            }
        }
        pixels
    }
}

} // verus!
