use std::marker::PhantomData;

use vstd::prelude::*;

use crate::error::Error;
pub use crate::traits::{Channels, ColorComponent, ScalarPrimitive};

verus! {

/// A color format whose pixels have `CHANNELS` scalars of type `S`.
pub trait ColorFormat<S: ScalarPrimitive> {
    /// The number of channels of the format.
    const CHANNELS: usize;
}

/// A generalized pixel.
pub trait Pixel: Copy + Clone {
    /// The scalar type that is used to store each channel in this pixel.
    type Scalar: ScalarPrimitive;

    /// The format of the channels in this pixel. For example (Red, Green, Blue, Alpha) or (Hue, Saturation, Value)
    type Format: ColorFormat<Self::Scalar>;

    /// The number of channels of the pixel.
    const CHANNELS: usize = Self::Format::CHANNELS;

    /// A view of `slice` as a pixel; fails unless the slice has one scalar per channel.
    fn as_view(slice: &[Self::Scalar]) -> (view: Result<PixelView<'_, Self>, Error>)
        ensures
            slice@.len() == Self::CHANNELS ==> (view matches Ok(v) && v.slice == slice),
            slice@.len() != Self::CHANNELS ==> view == Err::<PixelView<'_, Self>, Error>(
                Error::SliceLengthMismatch,
            ),
    {
        if slice.len() != Self::CHANNELS {
            return Err(Error::SliceLengthMismatch);
        }
        Ok(PixelView { slice, _format: PhantomData })
    }

    /// A mutable view of `slice` as a pixel; fails unless the slice has one scalar per channel.
    fn as_view_mut(slice: &mut [Self::Scalar]) -> (view: Result<PixelViewMut<'_, Self>, Error>)
        ensures
            old(slice)@.len() == Self::CHANNELS ==> (view matches Ok(v) && v.slice@ == old(slice)@
                && final(v.slice)@ == final(slice)@),
            old(slice)@.len() != Self::CHANNELS ==> view == Err::<PixelViewMut<'_, Self>, Error>(
                Error::SliceLengthMismatch,
            ),
    {
        if slice.len() != Self::CHANNELS {
            return Err(Error::SliceLengthMismatch);
        }
        Ok(PixelViewMut { slice, _format: PhantomData })
    }

    /// A view of `slice` as a pixel, whatever its length.
    fn as_view_unchecked(slice: &[Self::Scalar]) -> (view: PixelView<'_, Self>)
        ensures
            view.slice == slice,
    {
        PixelView { slice, _format: PhantomData }
    }

    /// A mutable view of `slice` as a pixel, whatever its length.
    fn as_view_mut_unchecked(slice: &mut [Self::Scalar]) -> (view: PixelViewMut<'_, Self>)
        ensures
            view.slice@ == old(slice)@,
            final(view.slice)@ == final(slice)@,
    {
        PixelViewMut { slice, _format: PhantomData }
    }
}

/// A pixel that can be built from, and taken apart into, its channel values.
pub trait PixelToComponents: Pixel {
    /// The channel values as a tuple.
    type Tuple;

    /// The channel values as an array.
    type Array;

    /// The channel values of the pixel.
    spec fn spec_components(&self) -> Seq<Self::Scalar>;

    /// The channel values held by a tuple.
    spec fn spec_tuple_components(tuple: Self::Tuple) -> Seq<Self::Scalar>;

    /// The channel values held by an array.
    spec fn spec_array_components(array: Self::Array) -> Seq<Self::Scalar>;

    /// A pixel is determined by its channel values.
    proof fn lemma_components_determine(a: Self, b: Self)
        requires
            a.spec_components() == b.spec_components(),
        ensures
            a == b,
    ;

    /// The number of channel values an array of the pixel holds.
    spec fn spec_array_len() -> nat;

    /// The channel values of an array, as a slice.
    fn array_as_slice(array: &Self::Array) -> (slice: &[Self::Scalar])
        ensures
            slice@ == Self::spec_array_components(*array),
            slice@.len() == Self::spec_array_len(),
    ;

    /// Returns a new pixel from a slice, and checks if the slice size is correct.
    fn from_slice(slice: &[Self::Scalar]) -> (pixel: Result<Self, Error>)
        requires
            Self::CHANNELS == Self::spec_array_len(),
        ensures
            slice@.len() == Self::CHANNELS ==> (pixel matches Ok(p) && p.spec_components()
                == slice@),
            slice@.len() != Self::CHANNELS ==> pixel == Err::<Self, Error>(
                Error::SliceLengthMismatch,
            ),
    {
        if slice.len() != Self::CHANNELS {
            return Err(Error::SliceLengthMismatch);
        }
        Ok(Self::from_slice_unchecked(slice))
    }

    /// Returns a new pixel from a slice of the pixel's length.
    fn from_slice_unchecked(slice: &[Self::Scalar]) -> (pixel: Self)
        requires
            slice@.len() == Self::CHANNELS,
            Self::CHANNELS == Self::spec_array_len(),
        ensures
            pixel.spec_components() == slice@,
    ;

    /// Returns a new pixel from a tuple of its channel values.
    fn from_tuple(tuple: Self::Tuple) -> (pixel: Self)
        ensures
            pixel.spec_components() == Self::spec_tuple_components(tuple),
    ;

    /// Returns the channel values of the pixel as a tuple.
    fn to_tuple(&self) -> (tuple: Self::Tuple)
        ensures
            Self::spec_tuple_components(tuple) == self.spec_components(),
    ;

    /// Returns a new pixel from an array of its channel values.
    fn from_array(array: Self::Array) -> (pixel: Self)
        ensures
            pixel.spec_components() == Self::spec_array_components(array),
    ;

    /// Returns the channel values of the pixel as an array.
    fn to_array(&self) -> (array: Self::Array)
        ensures
            Self::spec_array_components(array) == self.spec_components(),
    ;
}

/// A view into a slice of color channels.
pub struct PixelView<'a, P: Pixel> {
    /// The slice of color channels.
    pub slice: &'a [P::Scalar],
    /// The format of the color channels.
    pub _format: PhantomData<P::Format>,
}

impl<'a, P: Pixel> PixelView<'a, P> {
    /// A view of `slice` as a pixel; fails unless the slice has one scalar per channel.
    pub fn new(slice: &'a [P::Scalar]) -> (view: Result<Self, Error>)
        ensures
            slice@.len() == P::CHANNELS ==> (view matches Ok(v) && v.slice == slice),
            slice@.len() != P::CHANNELS ==> view == Err::<Self, Error>(Error::SliceLengthMismatch),
    {
        if slice.len() != P::CHANNELS {
            return Err(Error::SliceLengthMismatch);
        }
        Ok(Self::new_unchecked(slice))
    }

    /// A view of `slice` as a pixel, whatever its length.
    pub fn new_unchecked(slice: &'a [P::Scalar]) -> (view: Self)
        ensures
            view.slice == slice,
    {
        PixelView { slice, _format: PhantomData }
    }

    /// Returns the pixel represented by this view.
    pub fn as_pixel(&self) -> (pixel: P) where P: PixelToComponents
        requires
            self.slice@.len() == P::CHANNELS,
            P::CHANNELS == P::spec_array_len(),
        ensures
            pixel.spec_components() == self.slice@,
    {
        P::from_slice_unchecked(self.slice)
    }
}

/// A mutable view into a slice of color channels.
pub struct PixelViewMut<'a, P: Pixel> {
    /// The slice of color channels.
    pub slice: &'a mut [P::Scalar],
    /// The format of the color channels.
    pub _format: PhantomData<P::Format>,
}

impl<'a, P: Pixel> PixelViewMut<'a, P> {
    /// A mutable view of `slice` as a pixel; fails unless the slice has one scalar per channel.
    pub fn new(slice: &'a mut [P::Scalar]) -> (view: Result<Self, Error>)
        ensures
            old(slice)@.len() == P::CHANNELS ==> (view matches Ok(v) && v.slice@ == old(slice)@
                && final(v.slice)@ == final(slice)@),
            old(slice)@.len() != P::CHANNELS ==> view == Err::<Self, Error>(
                Error::SliceLengthMismatch,
            ),
    {
        if slice.len() != P::CHANNELS {
            return Err(Error::SliceLengthMismatch);
        }
        Ok(Self::new_unchecked(slice))
    }

    /// A mutable view of `slice` as a pixel, whatever its length.
    pub fn new_unchecked(slice: &'a mut [P::Scalar]) -> (view: Self)
        ensures
            view.slice@ == old(slice)@,
            final(view.slice)@ == final(slice)@,
    {
        PixelViewMut { slice, _format: PhantomData }
    }

    /// Returns the pixel represented by this view.
    pub fn as_pixel(&self) -> (pixel: P) where P: PixelToComponents
        requires
            old(self.slice)@.len() == P::CHANNELS,
            P::CHANNELS == P::spec_array_len(),
        ensures
            pixel.spec_components() == old(self.slice)@,
    {
        P::from_slice_unchecked(self.slice)
    }

    /// Writes the channel values of `pixel` into the viewed slice.
    pub fn set_pixel(&mut self, pixel: P) where P: PixelToComponents
        requires
            old(self).slice@.len() == P::CHANNELS,
            P::CHANNELS == P::spec_array_len(),
        ensures
            final(self).slice@ == pixel.spec_components(),
            final(final(self).slice)@ == final(old(self).slice)@,
    {
        let array = pixel.to_array();
        let source = P::array_as_slice(&array);
        let mut i: usize = 0;
        while i < source.len()
            invariant
                source@ == pixel.spec_components(),
                source@.len() == self.slice@.len(),
                i <= source@.len(),
                final(self.slice)@ == final(old(self).slice)@,
                forall|j: int| 0 <= j < i ==> self.slice@[j] == source@[j],
            decreases source@.len() - i,
        {
            self.slice[i] = source[i];
            i += 1;
        }
        proof {
            assert(self.slice@ =~= source@);
        }
    }
}

} // verus!
