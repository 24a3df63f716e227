use std::marker::PhantomData;

use vstd::prelude::*;

use crate::pixel::{ColorFormat, Pixel, PixelToComponents};
use crate::traits::ScalarPrimitive;
use crate::util::slice_as_array;

verus! {

/// A pixel made of `CHANNELS` scalars of a given format.
#[derive(Debug, PartialEq, Eq)]
pub struct Color<const CHANNELS: usize, Format, Scalar> {
    /// The channel values of the pixel.
    pub color: [Scalar; CHANNELS],
    _format: PhantomData<Format>,
}

impl<const CHANNELS: usize, Format, Scalar> Color<CHANNELS, Format, Scalar> {
    /// The channel values of the pixel.
    pub closed spec fn spec_color(&self) -> [Scalar; CHANNELS] {
        self.color
    }
}

impl<const CHANNELS: usize, Format, Scalar: Copy> Clone for Color<CHANNELS, Format, Scalar> {
    fn clone(&self) -> (color: Self)
        ensures
            color == *self,
    {
        *self
    }
}

impl<const CHANNELS: usize, Format, Scalar: Copy> Copy for Color<CHANNELS, Format, Scalar> {

}

impl<const CHANNELS: usize, Format, Scalar> Default for Color<CHANNELS, Format, Scalar> where
    Scalar: Default + Copy,
 {
    fn default() -> (color: Self)
        ensures
            forall|i: int, j: int|
                0 <= i < CHANNELS && 0 <= j < CHANNELS ==> color.spec_color()[i]
                    == color.spec_color()[j],
    {
        let value: Scalar = Default::default();
        Self { color: [value; CHANNELS], _format: PhantomData }
    }
}

impl<const CHANNELS: usize, Format, Scalar> Pixel for Color<CHANNELS, Format, Scalar> where
    Scalar: ScalarPrimitive,
    Format: Copy + ColorFormat<Scalar>,
 {
    type Scalar = Scalar;

    type Format = Format;
}

impl<Format, Scalar> PixelToComponents for Color<1, Format, Scalar> where
    Scalar: ScalarPrimitive,
    Format: Copy + ColorFormat<Scalar>,
 {
    type Tuple = (Scalar,);

    type Array = [Scalar; 1];

    closed spec fn spec_components(&self) -> Seq<Scalar> {
        self.color@
    }

    open spec fn spec_tuple_components(tuple: Self::Tuple) -> Seq<Scalar> {
        seq![tuple.0]
    }

    open spec fn spec_array_components(array: Self::Array) -> Seq<Scalar> {
        array@
    }

    open spec fn spec_array_len() -> nat {
        1
    }

    proof fn lemma_components_determine(a: Self, b: Self) {
        assert(a.color =~= b.color);
    }

    fn array_as_slice(array: &Self::Array) -> (slice: &[Scalar]) {
        array.as_slice()
    }

    fn from_slice_unchecked(slice: &[Scalar]) -> (pixel: Self) {
        let array: Self::Array = *slice_as_array(slice);
        let pixel = Self::from_array(array);
        proof {
            assert(Self::spec_array_components(array) == slice@);
        }
        pixel
    }

    fn from_tuple(tuple: Self::Tuple) -> (pixel: Self)
        ensures
            pixel.spec_components() == seq![tuple.0],
    {
        let array: [Scalar; 1] = [tuple.0];
        proof {
            assert(array@ =~= seq![tuple.0]);
        }
        Self::from_array(array)
    }

    fn to_tuple(&self) -> (tuple: Self::Tuple)
        ensures
            seq![tuple.0] == self.spec_components(),
    {
        let tuple = (self.color[0],);
        proof {
            assert(Self::spec_tuple_components(tuple) =~= self.color@);
        }
        tuple
    }

    fn from_array(array: Self::Array) -> (pixel: Self) {
        let pixel = Self { color: array, _format: PhantomData };
        proof {
            assert(pixel.spec_components() == Self::spec_array_components(array));
        }
        pixel
    }

    fn to_array(&self) -> (array: Self::Array) {
        self.color
    }
}

impl<Format, Scalar> PixelToComponents for Color<2, Format, Scalar> where
    Scalar: ScalarPrimitive,
    Format: Copy + ColorFormat<Scalar>,
 {
    type Tuple = (Scalar, Scalar,);

    type Array = [Scalar; 2];

    closed spec fn spec_components(&self) -> Seq<Scalar> {
        self.color@
    }

    open spec fn spec_tuple_components(tuple: Self::Tuple) -> Seq<Scalar> {
        seq![tuple.0, tuple.1]
    }

    open spec fn spec_array_components(array: Self::Array) -> Seq<Scalar> {
        array@
    }

    open spec fn spec_array_len() -> nat {
        2
    }

    proof fn lemma_components_determine(a: Self, b: Self) {
        assert(a.color =~= b.color);
    }

    fn array_as_slice(array: &Self::Array) -> (slice: &[Scalar]) {
        array.as_slice()
    }

    fn from_slice_unchecked(slice: &[Scalar]) -> (pixel: Self) {
        let array: Self::Array = *slice_as_array(slice);
        let pixel = Self::from_array(array);
        proof {
            assert(Self::spec_array_components(array) == slice@);
        }
        pixel
    }

    fn from_tuple(tuple: Self::Tuple) -> (pixel: Self)
        ensures
            pixel.spec_components() == seq![tuple.0, tuple.1],
    {
        let array: [Scalar; 2] = [tuple.0, tuple.1];
        proof {
            assert(array@ =~= seq![tuple.0, tuple.1]);
        }
        Self::from_array(array)
    }

    fn to_tuple(&self) -> (tuple: Self::Tuple)
        ensures
            seq![tuple.0, tuple.1] == self.spec_components(),
    {
        let tuple = (self.color[0], self.color[1],);
        proof {
            assert(Self::spec_tuple_components(tuple) =~= self.color@);
        }
        tuple
    }

    fn from_array(array: Self::Array) -> (pixel: Self) {
        let pixel = Self { color: array, _format: PhantomData };
        proof {
            assert(pixel.spec_components() == Self::spec_array_components(array));
        }
        pixel
    }

    fn to_array(&self) -> (array: Self::Array) {
        self.color
    }
}

impl<Format, Scalar> PixelToComponents for Color<3, Format, Scalar> where
    Scalar: ScalarPrimitive,
    Format: Copy + ColorFormat<Scalar>,
 {
    type Tuple = (Scalar, Scalar, Scalar,);

    type Array = [Scalar; 3];

    closed spec fn spec_components(&self) -> Seq<Scalar> {
        self.color@
    }

    open spec fn spec_tuple_components(tuple: Self::Tuple) -> Seq<Scalar> {
        seq![tuple.0, tuple.1, tuple.2]
    }

    open spec fn spec_array_components(array: Self::Array) -> Seq<Scalar> {
        array@
    }

    open spec fn spec_array_len() -> nat {
        3
    }

    proof fn lemma_components_determine(a: Self, b: Self) {
        assert(a.color =~= b.color);
    }

    fn array_as_slice(array: &Self::Array) -> (slice: &[Scalar]) {
        array.as_slice()
    }

    fn from_slice_unchecked(slice: &[Scalar]) -> (pixel: Self) {
        let array: Self::Array = *slice_as_array(slice);
        let pixel = Self::from_array(array);
        proof {
            assert(Self::spec_array_components(array) == slice@);
        }
        pixel
    }

    fn from_tuple(tuple: Self::Tuple) -> (pixel: Self)
        ensures
            pixel.spec_components() == seq![tuple.0, tuple.1, tuple.2],
    {
        let array: [Scalar; 3] = [tuple.0, tuple.1, tuple.2];
        proof {
            assert(array@ =~= seq![tuple.0, tuple.1, tuple.2]);
        }
        Self::from_array(array)
    }

    fn to_tuple(&self) -> (tuple: Self::Tuple)
        ensures
            seq![tuple.0, tuple.1, tuple.2] == self.spec_components(),
    {
        let tuple = (self.color[0], self.color[1], self.color[2],);
        proof {
            assert(Self::spec_tuple_components(tuple) =~= self.color@);
        }
        tuple
    }

    fn from_array(array: Self::Array) -> (pixel: Self) {
        let pixel = Self { color: array, _format: PhantomData };
        proof {
            assert(pixel.spec_components() == Self::spec_array_components(array));
        }
        pixel
    }

    fn to_array(&self) -> (array: Self::Array) {
        self.color
    }
}

impl<Format, Scalar> PixelToComponents for Color<4, Format, Scalar> where
    Scalar: ScalarPrimitive,
    Format: Copy + ColorFormat<Scalar>,
 {
    type Tuple = (Scalar, Scalar, Scalar, Scalar,);

    type Array = [Scalar; 4];

    closed spec fn spec_components(&self) -> Seq<Scalar> {
        self.color@
    }

    open spec fn spec_tuple_components(tuple: Self::Tuple) -> Seq<Scalar> {
        seq![tuple.0, tuple.1, tuple.2, tuple.3]
    }

    open spec fn spec_array_components(array: Self::Array) -> Seq<Scalar> {
        array@
    }

    open spec fn spec_array_len() -> nat {
        4
    }

    proof fn lemma_components_determine(a: Self, b: Self) {
        assert(a.color =~= b.color);
    }

    fn array_as_slice(array: &Self::Array) -> (slice: &[Scalar]) {
        array.as_slice()
    }

    fn from_slice_unchecked(slice: &[Scalar]) -> (pixel: Self) {
        let array: Self::Array = *slice_as_array(slice);
        let pixel = Self::from_array(array);
        proof {
            assert(Self::spec_array_components(array) == slice@);
        }
        pixel
    }

    fn from_tuple(tuple: Self::Tuple) -> (pixel: Self)
        ensures
            pixel.spec_components() == seq![tuple.0, tuple.1, tuple.2, tuple.3],
    {
        let array: [Scalar; 4] = [tuple.0, tuple.1, tuple.2, tuple.3];
        proof {
            assert(array@ =~= seq![tuple.0, tuple.1, tuple.2, tuple.3]);
        }
        Self::from_array(array)
    }

    fn to_tuple(&self) -> (tuple: Self::Tuple)
        ensures
            seq![tuple.0, tuple.1, tuple.2, tuple.3] == self.spec_components(),
    {
        let tuple = (self.color[0], self.color[1], self.color[2], self.color[3],);
        proof {
            assert(Self::spec_tuple_components(tuple) =~= self.color@);
        }
        tuple
    }

    fn from_array(array: Self::Array) -> (pixel: Self) {
        let pixel = Self { color: array, _format: PhantomData };
        proof {
            assert(pixel.spec_components() == Self::spec_array_components(array));
        }
        pixel
    }

    fn to_array(&self) -> (array: Self::Array) {
        self.color
    }
}

impl<Format, Scalar> PixelToComponents for Color<5, Format, Scalar> where
    Scalar: ScalarPrimitive,
    Format: Copy + ColorFormat<Scalar>,
 {
    type Tuple = (Scalar, Scalar, Scalar, Scalar, Scalar,);

    type Array = [Scalar; 5];

    closed spec fn spec_components(&self) -> Seq<Scalar> {
        self.color@
    }

    open spec fn spec_tuple_components(tuple: Self::Tuple) -> Seq<Scalar> {
        seq![tuple.0, tuple.1, tuple.2, tuple.3, tuple.4]
    }

    open spec fn spec_array_components(array: Self::Array) -> Seq<Scalar> {
        array@
    }

    open spec fn spec_array_len() -> nat {
        5
    }

    proof fn lemma_components_determine(a: Self, b: Self) {
        assert(a.color =~= b.color);
    }

    fn array_as_slice(array: &Self::Array) -> (slice: &[Scalar]) {
        array.as_slice()
    }

    fn from_slice_unchecked(slice: &[Scalar]) -> (pixel: Self) {
        let array: Self::Array = *slice_as_array(slice);
        let pixel = Self::from_array(array);
        proof {
            assert(Self::spec_array_components(array) == slice@);
        }
        pixel
    }

    fn from_tuple(tuple: Self::Tuple) -> (pixel: Self)
        ensures
            pixel.spec_components() == seq![tuple.0, tuple.1, tuple.2, tuple.3, tuple.4],
    {
        let array: [Scalar; 5] = [tuple.0, tuple.1, tuple.2, tuple.3, tuple.4];
        proof {
            assert(array@ =~= seq![tuple.0, tuple.1, tuple.2, tuple.3, tuple.4]);
        }
        Self::from_array(array)
    }

    fn to_tuple(&self) -> (tuple: Self::Tuple)
        ensures
            seq![tuple.0, tuple.1, tuple.2, tuple.3, tuple.4] == self.spec_components(),
    {
        let tuple = (self.color[0], self.color[1], self.color[2], self.color[3], self.color[4],);
        proof {
            assert(Self::spec_tuple_components(tuple) =~= self.color@);
        }
        tuple
    }

    fn from_array(array: Self::Array) -> (pixel: Self) {
        let pixel = Self { color: array, _format: PhantomData };
        proof {
            assert(pixel.spec_components() == Self::spec_array_components(array));
        }
        pixel
    }

    fn to_array(&self) -> (array: Self::Array) {
        self.color
    }
}

impl<Format, Scalar> PixelToComponents for Color<6, Format, Scalar> where
    Scalar: ScalarPrimitive,
    Format: Copy + ColorFormat<Scalar>,
 {
    type Tuple = (Scalar, Scalar, Scalar, Scalar, Scalar, Scalar,);

    type Array = [Scalar; 6];

    closed spec fn spec_components(&self) -> Seq<Scalar> {
        self.color@
    }

    open spec fn spec_tuple_components(tuple: Self::Tuple) -> Seq<Scalar> {
        seq![tuple.0, tuple.1, tuple.2, tuple.3, tuple.4, tuple.5]
    }

    open spec fn spec_array_components(array: Self::Array) -> Seq<Scalar> {
        array@
    }

    open spec fn spec_array_len() -> nat {
        6
    }

    proof fn lemma_components_determine(a: Self, b: Self) {
        assert(a.color =~= b.color);
    }

    fn array_as_slice(array: &Self::Array) -> (slice: &[Scalar]) {
        array.as_slice()
    }

    fn from_slice_unchecked(slice: &[Scalar]) -> (pixel: Self) {
        let array: Self::Array = *slice_as_array(slice);
        let pixel = Self::from_array(array);
        proof {
            assert(Self::spec_array_components(array) == slice@);
        }
        pixel
    }

    fn from_tuple(tuple: Self::Tuple) -> (pixel: Self)
        ensures
            pixel.spec_components() == seq![tuple.0, tuple.1, tuple.2, tuple.3, tuple.4, tuple.5],
    {
        let array: [Scalar; 6] = [tuple.0, tuple.1, tuple.2, tuple.3, tuple.4, tuple.5];
        proof {
            assert(array@ =~= seq![tuple.0, tuple.1, tuple.2, tuple.3, tuple.4, tuple.5]);
        }
        Self::from_array(array)
    }

    fn to_tuple(&self) -> (tuple: Self::Tuple)
        ensures
            seq![tuple.0, tuple.1, tuple.2, tuple.3, tuple.4, tuple.5] == self.spec_components(),
    {
        let tuple = (self.color[0], self.color[1], self.color[2], self.color[3], self.color[4], self.color[5],);
        proof {
            assert(Self::spec_tuple_components(tuple) =~= self.color@);
        }
        tuple
    }

    fn from_array(array: Self::Array) -> (pixel: Self) {
        let pixel = Self { color: array, _format: PhantomData };
        proof {
            assert(pixel.spec_components() == Self::spec_array_components(array));
        }
        pixel
    }

    fn to_array(&self) -> (array: Self::Array) {
        self.color
    }
}

impl<Format, Scalar> PixelToComponents for Color<7, Format, Scalar> where
    Scalar: ScalarPrimitive,
    Format: Copy + ColorFormat<Scalar>,
 {
    type Tuple = (Scalar, Scalar, Scalar, Scalar, Scalar, Scalar, Scalar,);

    type Array = [Scalar; 7];

    closed spec fn spec_components(&self) -> Seq<Scalar> {
        self.color@
    }

    open spec fn spec_tuple_components(tuple: Self::Tuple) -> Seq<Scalar> {
        seq![tuple.0, tuple.1, tuple.2, tuple.3, tuple.4, tuple.5, tuple.6]
    }

    open spec fn spec_array_components(array: Self::Array) -> Seq<Scalar> {
        array@
    }

    open spec fn spec_array_len() -> nat {
        7
    }

    proof fn lemma_components_determine(a: Self, b: Self) {
        assert(a.color =~= b.color);
    }

    fn array_as_slice(array: &Self::Array) -> (slice: &[Scalar]) {
        array.as_slice()
    }

    fn from_slice_unchecked(slice: &[Scalar]) -> (pixel: Self) {
        let array: Self::Array = *slice_as_array(slice);
        let pixel = Self::from_array(array);
        proof {
            assert(Self::spec_array_components(array) == slice@);
        }
        pixel
    }

    fn from_tuple(tuple: Self::Tuple) -> (pixel: Self)
        ensures
            pixel.spec_components() == seq![tuple.0, tuple.1, tuple.2, tuple.3, tuple.4, tuple.5, tuple.6],
    {
        let array: [Scalar; 7] = [tuple.0, tuple.1, tuple.2, tuple.3, tuple.4, tuple.5, tuple.6];
        proof {
            assert(array@ =~= seq![tuple.0, tuple.1, tuple.2, tuple.3, tuple.4, tuple.5, tuple.6]);
        }
        Self::from_array(array)
    }

    fn to_tuple(&self) -> (tuple: Self::Tuple)
        ensures
            seq![tuple.0, tuple.1, tuple.2, tuple.3, tuple.4, tuple.5, tuple.6] == self.spec_components(),
    {
        let tuple = (self.color[0], self.color[1], self.color[2], self.color[3], self.color[4], self.color[5], self.color[6],);
        proof {
            assert(Self::spec_tuple_components(tuple) =~= self.color@);
        }
        tuple
    }

    fn from_array(array: Self::Array) -> (pixel: Self) {
        let pixel = Self { color: array, _format: PhantomData };
        proof {
            assert(pixel.spec_components() == Self::spec_array_components(array));
        }
        pixel
    }

    fn to_array(&self) -> (array: Self::Array) {
        self.color
    }
}

impl<Format, Scalar> PixelToComponents for Color<8, Format, Scalar> where
    Scalar: ScalarPrimitive,
    Format: Copy + ColorFormat<Scalar>,
 {
    type Tuple = (Scalar, Scalar, Scalar, Scalar, Scalar, Scalar, Scalar, Scalar,);

    type Array = [Scalar; 8];

    closed spec fn spec_components(&self) -> Seq<Scalar> {
        self.color@
    }

    open spec fn spec_tuple_components(tuple: Self::Tuple) -> Seq<Scalar> {
        seq![tuple.0, tuple.1, tuple.2, tuple.3, tuple.4, tuple.5, tuple.6, tuple.7]
    }

    open spec fn spec_array_components(array: Self::Array) -> Seq<Scalar> {
        array@
    }

    open spec fn spec_array_len() -> nat {
        8
    }

    proof fn lemma_components_determine(a: Self, b: Self) {
        assert(a.color =~= b.color);
    }

    fn array_as_slice(array: &Self::Array) -> (slice: &[Scalar]) {
        array.as_slice()
    }

    fn from_slice_unchecked(slice: &[Scalar]) -> (pixel: Self) {
        let array: Self::Array = *slice_as_array(slice);
        let pixel = Self::from_array(array);
        proof {
            assert(Self::spec_array_components(array) == slice@);
        }
        pixel
    }

    fn from_tuple(tuple: Self::Tuple) -> (pixel: Self)
        ensures
            pixel.spec_components() == seq![tuple.0, tuple.1, tuple.2, tuple.3, tuple.4, tuple.5, tuple.6, tuple.7],
    {
        let array: [Scalar; 8] = [tuple.0, tuple.1, tuple.2, tuple.3, tuple.4, tuple.5, tuple.6, tuple.7];
        proof {
            assert(array@ =~= seq![tuple.0, tuple.1, tuple.2, tuple.3, tuple.4, tuple.5, tuple.6, tuple.7]);
        }
        Self::from_array(array)
    }

    fn to_tuple(&self) -> (tuple: Self::Tuple)
        ensures
            seq![tuple.0, tuple.1, tuple.2, tuple.3, tuple.4, tuple.5, tuple.6, tuple.7] == self.spec_components(),
    {
        let tuple = (self.color[0], self.color[1], self.color[2], self.color[3], self.color[4], self.color[5], self.color[6], self.color[7],);
        proof {
            assert(Self::spec_tuple_components(tuple) =~= self.color@);
        }
        tuple
    }

    fn from_array(array: Self::Array) -> (pixel: Self) {
        let pixel = Self { color: array, _format: PhantomData };
        proof {
            assert(pixel.spec_components() == Self::spec_array_components(array));
        }
        pixel
    }

    fn to_array(&self) -> (array: Self::Array) {
        self.color
    }
}

impl<Format, Scalar> PixelToComponents for Color<9, Format, Scalar> where
    Scalar: ScalarPrimitive,
    Format: Copy + ColorFormat<Scalar>,
 {
    type Tuple = (Scalar, Scalar, Scalar, Scalar, Scalar, Scalar, Scalar, Scalar, Scalar,);

    type Array = [Scalar; 9];

    closed spec fn spec_components(&self) -> Seq<Scalar> {
        self.color@
    }

    open spec fn spec_tuple_components(tuple: Self::Tuple) -> Seq<Scalar> {
        seq![tuple.0, tuple.1, tuple.2, tuple.3, tuple.4, tuple.5, tuple.6, tuple.7, tuple.8]
    }

    open spec fn spec_array_components(array: Self::Array) -> Seq<Scalar> {
        array@
    }

    open spec fn spec_array_len() -> nat {
        9
    }

    proof fn lemma_components_determine(a: Self, b: Self) {
        assert(a.color =~= b.color);
    }

    fn array_as_slice(array: &Self::Array) -> (slice: &[Scalar]) {
        array.as_slice()
    }

    fn from_slice_unchecked(slice: &[Scalar]) -> (pixel: Self) {
        let array: Self::Array = *slice_as_array(slice);
        let pixel = Self::from_array(array);
        proof {
            assert(Self::spec_array_components(array) == slice@);
        }
        pixel
    }

    fn from_tuple(tuple: Self::Tuple) -> (pixel: Self)
        ensures
            pixel.spec_components() == seq![tuple.0, tuple.1, tuple.2, tuple.3, tuple.4, tuple.5, tuple.6, tuple.7, tuple.8],
    {
        let array: [Scalar; 9] = [tuple.0, tuple.1, tuple.2, tuple.3, tuple.4, tuple.5, tuple.6, tuple.7, tuple.8];
        proof {
            assert(array@ =~= seq![tuple.0, tuple.1, tuple.2, tuple.3, tuple.4, tuple.5, tuple.6, tuple.7, tuple.8]);
        }
        Self::from_array(array)
    }

    fn to_tuple(&self) -> (tuple: Self::Tuple)
        ensures
            seq![tuple.0, tuple.1, tuple.2, tuple.3, tuple.4, tuple.5, tuple.6, tuple.7, tuple.8] == self.spec_components(),
    {
        let tuple = (self.color[0], self.color[1], self.color[2], self.color[3], self.color[4], self.color[5], self.color[6], self.color[7], self.color[8],);
        proof {
            assert(Self::spec_tuple_components(tuple) =~= self.color@);
        }
        tuple
    }

    fn from_array(array: Self::Array) -> (pixel: Self) {
        let pixel = Self { color: array, _format: PhantomData };
        proof {
            assert(pixel.spec_components() == Self::spec_array_components(array));
        }
        pixel
    }

    fn to_array(&self) -> (array: Self::Array) {
        self.color
    }
}

impl<Format, Scalar> PixelToComponents for Color<10, Format, Scalar> where
    Scalar: ScalarPrimitive,
    Format: Copy + ColorFormat<Scalar>,
 {
    type Tuple = (Scalar, Scalar, Scalar, Scalar, Scalar, Scalar, Scalar, Scalar, Scalar, Scalar,);

    type Array = [Scalar; 10];

    closed spec fn spec_components(&self) -> Seq<Scalar> {
        self.color@
    }

    open spec fn spec_tuple_components(tuple: Self::Tuple) -> Seq<Scalar> {
        seq![tuple.0, tuple.1, tuple.2, tuple.3, tuple.4, tuple.5, tuple.6, tuple.7, tuple.8, tuple.9]
    }

    open spec fn spec_array_components(array: Self::Array) -> Seq<Scalar> {
        array@
    }

    open spec fn spec_array_len() -> nat {
        10
    }

    proof fn lemma_components_determine(a: Self, b: Self) {
        assert(a.color =~= b.color);
    }

    fn array_as_slice(array: &Self::Array) -> (slice: &[Scalar]) {
        array.as_slice()
    }

    fn from_slice_unchecked(slice: &[Scalar]) -> (pixel: Self) {
        let array: Self::Array = *slice_as_array(slice);
        let pixel = Self::from_array(array);
        proof {
            assert(Self::spec_array_components(array) == slice@);
        }
        pixel
    }

    fn from_tuple(tuple: Self::Tuple) -> (pixel: Self)
        ensures
            pixel.spec_components() == seq![tuple.0, tuple.1, tuple.2, tuple.3, tuple.4, tuple.5, tuple.6, tuple.7, tuple.8, tuple.9],
    {
        let array: [Scalar; 10] = [tuple.0, tuple.1, tuple.2, tuple.3, tuple.4, tuple.5, tuple.6, tuple.7, tuple.8, tuple.9];
        proof {
            assert(array@ =~= seq![tuple.0, tuple.1, tuple.2, tuple.3, tuple.4, tuple.5, tuple.6, tuple.7, tuple.8, tuple.9]);
        }
        Self::from_array(array)
    }

    fn to_tuple(&self) -> (tuple: Self::Tuple)
        ensures
            seq![tuple.0, tuple.1, tuple.2, tuple.3, tuple.4, tuple.5, tuple.6, tuple.7, tuple.8, tuple.9] == self.spec_components(),
    {
        let tuple = (self.color[0], self.color[1], self.color[2], self.color[3], self.color[4], self.color[5], self.color[6], self.color[7], self.color[8], self.color[9],);
        proof {
            assert(Self::spec_tuple_components(tuple) =~= self.color@);
        }
        tuple
    }

    fn from_array(array: Self::Array) -> (pixel: Self) {
        let pixel = Self { color: array, _format: PhantomData };
        proof {
            assert(pixel.spec_components() == Self::spec_array_components(array));
        }
        pixel
    }

    fn to_array(&self) -> (array: Self::Array) {
        self.color
    }
}

impl<Format, Scalar> PixelToComponents for Color<11, Format, Scalar> where
    Scalar: ScalarPrimitive,
    Format: Copy + ColorFormat<Scalar>,
 {
    type Tuple = (Scalar, Scalar, Scalar, Scalar, Scalar, Scalar, Scalar, Scalar, Scalar, Scalar, Scalar,);

    type Array = [Scalar; 11];

    closed spec fn spec_components(&self) -> Seq<Scalar> {
        self.color@
    }

    open spec fn spec_tuple_components(tuple: Self::Tuple) -> Seq<Scalar> {
        seq![tuple.0, tuple.1, tuple.2, tuple.3, tuple.4, tuple.5, tuple.6, tuple.7, tuple.8, tuple.9, tuple.10]
    }

    open spec fn spec_array_components(array: Self::Array) -> Seq<Scalar> {
        array@
    }

    open spec fn spec_array_len() -> nat {
        11
    }

    proof fn lemma_components_determine(a: Self, b: Self) {
        assert(a.color =~= b.color);
    }

    fn array_as_slice(array: &Self::Array) -> (slice: &[Scalar]) {
        array.as_slice()
    }

    fn from_slice_unchecked(slice: &[Scalar]) -> (pixel: Self) {
        let array: Self::Array = *slice_as_array(slice);
        let pixel = Self::from_array(array);
        proof {
            assert(Self::spec_array_components(array) == slice@);
        }
        pixel
    }

    fn from_tuple(tuple: Self::Tuple) -> (pixel: Self)
        ensures
            pixel.spec_components() == seq![tuple.0, tuple.1, tuple.2, tuple.3, tuple.4, tuple.5, tuple.6, tuple.7, tuple.8, tuple.9, tuple.10],
    {
        let array: [Scalar; 11] = [tuple.0, tuple.1, tuple.2, tuple.3, tuple.4, tuple.5, tuple.6, tuple.7, tuple.8, tuple.9, tuple.10];
        proof {
            assert(array@ =~= seq![tuple.0, tuple.1, tuple.2, tuple.3, tuple.4, tuple.5, tuple.6, tuple.7, tuple.8, tuple.9, tuple.10]);
        }
        Self::from_array(array)
    }

    fn to_tuple(&self) -> (tuple: Self::Tuple)
        ensures
            seq![tuple.0, tuple.1, tuple.2, tuple.3, tuple.4, tuple.5, tuple.6, tuple.7, tuple.8, tuple.9, tuple.10] == self.spec_components(),
    {
        let tuple = (self.color[0], self.color[1], self.color[2], self.color[3], self.color[4], self.color[5], self.color[6], self.color[7], self.color[8], self.color[9], self.color[10],);
        proof {
            assert(Self::spec_tuple_components(tuple) =~= self.color@);
        }
        tuple
    }

    fn from_array(array: Self::Array) -> (pixel: Self) {
        let pixel = Self { color: array, _format: PhantomData };
        proof {
            assert(pixel.spec_components() == Self::spec_array_components(array));
        }
        pixel
    }

    fn to_array(&self) -> (array: Self::Array) {
        self.color
    }
}

impl<Format, Scalar> PixelToComponents for Color<12, Format, Scalar> where
    Scalar: ScalarPrimitive,
    Format: Copy + ColorFormat<Scalar>,
 {
    type Tuple = (Scalar, Scalar, Scalar, Scalar, Scalar, Scalar, Scalar, Scalar, Scalar, Scalar, Scalar, Scalar,);

    type Array = [Scalar; 12];

    closed spec fn spec_components(&self) -> Seq<Scalar> {
        self.color@
    }

    open spec fn spec_tuple_components(tuple: Self::Tuple) -> Seq<Scalar> {
        seq![tuple.0, tuple.1, tuple.2, tuple.3, tuple.4, tuple.5, tuple.6, tuple.7, tuple.8, tuple.9, tuple.10, tuple.11]
    }

    open spec fn spec_array_components(array: Self::Array) -> Seq<Scalar> {
        array@
    }

    open spec fn spec_array_len() -> nat {
        12
    }

    proof fn lemma_components_determine(a: Self, b: Self) {
        assert(a.color =~= b.color);
    }

    fn array_as_slice(array: &Self::Array) -> (slice: &[Scalar]) {
        array.as_slice()
    }

    fn from_slice_unchecked(slice: &[Scalar]) -> (pixel: Self) {
        let array: Self::Array = *slice_as_array(slice);
        let pixel = Self::from_array(array);
        proof {
            assert(Self::spec_array_components(array) == slice@);
        }
        pixel
    }

    fn from_tuple(tuple: Self::Tuple) -> (pixel: Self)
        ensures
            pixel.spec_components() == seq![tuple.0, tuple.1, tuple.2, tuple.3, tuple.4, tuple.5, tuple.6, tuple.7, tuple.8, tuple.9, tuple.10, tuple.11],
    {
        let array: [Scalar; 12] = [tuple.0, tuple.1, tuple.2, tuple.3, tuple.4, tuple.5, tuple.6, tuple.7, tuple.8, tuple.9, tuple.10, tuple.11];
        proof {
            assert(array@ =~= seq![tuple.0, tuple.1, tuple.2, tuple.3, tuple.4, tuple.5, tuple.6, tuple.7, tuple.8, tuple.9, tuple.10, tuple.11]);
        }
        Self::from_array(array)
    }

    fn to_tuple(&self) -> (tuple: Self::Tuple)
        ensures
            seq![tuple.0, tuple.1, tuple.2, tuple.3, tuple.4, tuple.5, tuple.6, tuple.7, tuple.8, tuple.9, tuple.10, tuple.11] == self.spec_components(),
    {
        let tuple = (self.color[0], self.color[1], self.color[2], self.color[3], self.color[4], self.color[5], self.color[6], self.color[7], self.color[8], self.color[9], self.color[10], self.color[11],);
        proof {
            assert(Self::spec_tuple_components(tuple) =~= self.color@);
        }
        tuple
    }

    fn from_array(array: Self::Array) -> (pixel: Self) {
        let pixel = Self { color: array, _format: PhantomData };
        proof {
            assert(pixel.spec_components() == Self::spec_array_components(array));
        }
        pixel
    }

    fn to_array(&self) -> (array: Self::Array) {
        self.color
    }
}

} // verus!
