use std::marker::PhantomData;

use vstd::prelude::*;

use crate::traits::{Color, ColorFormat, ColorSpace, ScalarPrimitive};

pub mod components;
pub mod formats;
pub mod spaces;

verus! {

/// Reinterprets a color of unknown RGB space as linear RGB or as sRGB.
pub trait AssumeRGB<const CHANNELS: usize> where Self: Sized {
    /// The color, assumed to be linear RGB.
    fn assume_linear_rgb(self) -> (assumed: AssumedLinear<Self>)
        ensures
            assumed.spec_inner() == self,
    ;

    /// The color, assumed to be sRGB.
    fn assume_srgb(self) -> (assumed: AssumedSrgb<Self>)
        ensures
            assumed.spec_inner() == self,
    ;
}

impl<const CHANNELS: usize, T> AssumeRGB<CHANNELS> for T where
    T: Color<CHANNELS, Space = spaces::UnknownRGB>,
 {
    fn assume_linear_rgb(self) -> (assumed: AssumedLinear<Self>) {
        AssumedLinear(self)
    }

    fn assume_srgb(self) -> (assumed: AssumedSrgb<Self>) {
        AssumedSrgb(self)
    }
}

/// A color of unknown RGB space that is taken to be linear RGB.
#[derive(Copy, Clone, Debug, Default, PartialEq, Eq)]
pub struct AssumedLinear<T>(T) where T: Sized;

impl<T> AssumedLinear<T> {
    /// The color as it was before the assumption.
    pub closed spec fn spec_inner(&self) -> T {
        self.0
    }
}

impl<const CHANNELS: usize, T> Color<CHANNELS> for AssumedLinear<T> where
    T: Color<CHANNELS, Space = spaces::UnknownRGB>,
 {
    type Scalar = T::Scalar;

    type Format = T::Format;

    type Space = spaces::LinearRGB;

    open spec fn spec_array(&self) -> [Self::Scalar; CHANNELS] {
        self.spec_inner().spec_array()
    }

    closed spec fn spec_from_array(array: [Self::Scalar; CHANNELS]) -> Self {
        AssumedLinear(T::spec_from_array(array))
    }

    proof fn lemma_from_array_to_array(array: [Self::Scalar; CHANNELS]) {
        T::lemma_from_array_to_array(array);
    }

    proof fn lemma_to_array_from_array(color: Self) {
        T::lemma_to_array_from_array(color.0);
    }

    fn from_array(array: [Self::Scalar; CHANNELS]) -> (color: Self) {
        AssumedLinear(T::from_array(array))
    }

    fn to_array(&self) -> (array: [Self::Scalar; CHANNELS]) {
        T::to_array(&self.0)
    }
}

/// A color of unknown RGB space that is taken to be sRGB.
#[derive(Copy, Clone, Debug, Default, PartialEq, Eq)]
pub struct AssumedSrgb<T>(T);

impl<T> AssumedSrgb<T> {
    /// The color as it was before the assumption.
    pub closed spec fn spec_inner(&self) -> T {
        self.0
    }
}

impl<const CHANNELS: usize, T> Color<CHANNELS> for AssumedSrgb<T> where
    T: Color<CHANNELS, Space = spaces::UnknownRGB>,
 {
    type Scalar = T::Scalar;

    type Format = T::Format;

    type Space = spaces::SRGB;

    open spec fn spec_array(&self) -> [Self::Scalar; CHANNELS] {
        self.spec_inner().spec_array()
    }

    closed spec fn spec_from_array(array: [Self::Scalar; CHANNELS]) -> Self {
        AssumedSrgb(T::spec_from_array(array))
    }

    proof fn lemma_from_array_to_array(array: [Self::Scalar; CHANNELS]) {
        T::lemma_from_array_to_array(array);
    }

    proof fn lemma_to_array_from_array(color: Self) {
        T::lemma_to_array_from_array(color.0);
    }

    fn from_array(array: [Self::Scalar; CHANNELS]) -> (color: Self) {
        AssumedSrgb(T::from_array(array))
    }

    fn to_array(&self) -> (array: [Self::Scalar; CHANNELS]) {
        T::to_array(&self.0)
    }
}

/// A color made of `CHANNELS` scalars of a given format and color space.
#[derive(Debug, PartialEq, Eq)]
pub struct GenericColor<const CHANNELS: usize, Format, Scalar, Space> {
    /// The channel values of the color.
    pub color: [Scalar; CHANNELS],
    _format: PhantomData<Format>,
    _space: PhantomData<Space>,
}

impl<const CHANNELS: usize, Format, Scalar, Space> GenericColor<CHANNELS, Format, Scalar, Space> {
    /// The channel values of the color.
    pub closed spec fn spec_color(&self) -> [Scalar; CHANNELS] {
        self.color
    }
}

impl<const CHANNELS: usize, Format, Scalar: Copy, Space> Clone for GenericColor<
    CHANNELS,
    Format,
    Scalar,
    Space,
> {
    fn clone(&self) -> (color: Self)
        ensures
            color == *self,
    {
        *self
    }
}

impl<const CHANNELS: usize, Format, Scalar: Copy, Space> Copy for GenericColor<
    CHANNELS,
    Format,
    Scalar,
    Space,
> {

}

impl<const CHANNELS: usize, Format, Scalar, Space> Default for GenericColor<
    CHANNELS,
    Format,
    Scalar,
    Space,
> where Scalar: Default + Copy {
    fn default() -> (color: Self)
        ensures
            forall|i: int, j: int|
                0 <= i < CHANNELS && 0 <= j < CHANNELS ==> color.spec_color()[i]
                    == color.spec_color()[j],
    {
        let value: Scalar = Default::default();
        Self { color: [value; CHANNELS], _format: PhantomData, _space: PhantomData }
    }
}

impl<const CHANNELS: usize, Format, Scalar, Space> Color<CHANNELS> for GenericColor<
    CHANNELS,
    Format,
    Scalar,
    Space,
> where Scalar: ScalarPrimitive, Format: Copy + ColorFormat<CHANNELS>, Space: Copy + ColorSpace {
    type Scalar = Scalar;

    type Format = Format;

    type Space = Space;

    open spec fn spec_array(&self) -> [Scalar; CHANNELS] {
        self.spec_color()
    }

    closed spec fn spec_from_array(array: [Scalar; CHANNELS]) -> Self {
        GenericColor { color: array, _format: PhantomData, _space: PhantomData }
    }

    proof fn lemma_from_array_to_array(array: [Scalar; CHANNELS]) {
    }

    proof fn lemma_to_array_from_array(color: Self) {
    }

    fn from_array(array: [Scalar; CHANNELS]) -> (color: Self) {
        Self { color: array, _format: PhantomData, _space: PhantomData }
    }

    fn to_array(&self) -> (array: [Scalar; CHANNELS]) {
        self.color
    }
}

} // verus!
