use vstd::prelude::*;

use crate::color::GenericColor;
use crate::traits::{Color, ColorComponent, ColorFormat, PixelView, PixelViewMut, ScalarPrimitive};

verus! {

/// The Red color channel.
#[derive(Copy, Clone, Debug, Default, PartialEq, Eq)]
pub struct Red;

impl ColorComponent for Red {}

/// A color format that has a Red channel, at a fixed position among its `CHANNELS` channels.
pub trait RedComponent<const CHANNELS: usize, Scalar> {
    /// The position of the Red channel.
    spec fn spec_index() -> int;

    /// The Red channel of an array of channel values.
    fn component(slice: &[Scalar; CHANNELS]) -> (value: Scalar)
        ensures
            0 <= Self::spec_index() < CHANNELS,
            value == slice@[Self::spec_index()],
    ;

    /// The Red channel of an array of channel values, to be written.
    fn component_mut(slice: &mut [Scalar; CHANNELS]) -> (value: &mut Scalar)
        ensures
            0 <= Self::spec_index() < CHANNELS,
            *value == old(slice)@[Self::spec_index()],
            final(slice)@ == old(slice)@.update(Self::spec_index(), *final(value)),
    ;
}

/// A pixel or color whose Red channel can be read.
pub trait HasRed<Scalar> {
    /// The Red channel.
    spec fn spec_red(&self) -> Scalar;

    /// The Red channel.
    fn red(&self) -> (value: Scalar)
        ensures
            value == self.spec_red(),
    ;
}

/// A pixel or color whose Red channel can be written.
pub trait HasRedMut<Scalar>: HasRed<Scalar> {
    /// Set the Red channel.
    fn set_red(&mut self, red: Scalar)
        ensures
            final(self).spec_red() == red,
    ;
}

impl<'a, const CHANNELS: usize, C: Color<CHANNELS>> HasRed<C::Scalar> for PixelView<'a, CHANNELS, C> where
    C::Format: RedComponent<CHANNELS, C::Scalar>,
 {
    open spec fn spec_red(&self) -> C::Scalar {
        (*self.slice)@[<C::Format as RedComponent<CHANNELS, C::Scalar>>::spec_index()]
    }

    fn red(&self) -> (value: C::Scalar) {
        <C::Format as RedComponent<CHANNELS, C::Scalar>>::component(self.slice)
    }
}

impl<'a, const CHANNELS: usize, C: Color<CHANNELS>> HasRed<C::Scalar> for PixelViewMut<'a, CHANNELS, C> where
    C::Format: RedComponent<CHANNELS, C::Scalar>,
 {
    open spec fn spec_red(&self) -> C::Scalar {
        (*self.slice)@[<C::Format as RedComponent<CHANNELS, C::Scalar>>::spec_index()]
    }

    fn red(&self) -> (value: C::Scalar) {
        <C::Format as RedComponent<CHANNELS, C::Scalar>>::component(self.slice)
    }
}

impl<'a, const CHANNELS: usize, C: Color<CHANNELS>> HasRedMut<C::Scalar> for PixelViewMut<'a, CHANNELS, C> where
    C::Format: RedComponent<CHANNELS, C::Scalar>,
 {
    fn set_red(&mut self, red: C::Scalar)
        ensures
            (*final(self).slice)@ == (*old(self).slice)@.update(
                <C::Format as RedComponent<CHANNELS, C::Scalar>>::spec_index(),
                red,
            ),
            *final(final(self).slice) == *final(old(self).slice),
    {
        *<C::Format as RedComponent<CHANNELS, C::Scalar>>::component_mut(self.slice) = red
    }
}

impl<const CHANNELS: usize, Format, Scalar, Space> HasRed<Scalar> for GenericColor<
    CHANNELS,
    Format,
    Scalar,
    Space,
> where Format: RedComponent<CHANNELS, Scalar> {
    open spec fn spec_red(&self) -> Scalar {
        self.spec_color()@[<Format as RedComponent<CHANNELS, Scalar>>::spec_index()]
    }

    fn red(&self) -> (value: Scalar) {
        <Format as RedComponent<CHANNELS, Scalar>>::component(&self.color)
    }
}

impl<const CHANNELS: usize, Format, Scalar, Space> HasRedMut<Scalar> for GenericColor<
    CHANNELS,
    Format,
    Scalar,
    Space,
> where Format: RedComponent<CHANNELS, Scalar> {
    fn set_red(&mut self, red: Scalar)
        ensures
            final(self).spec_color()@ == old(self).spec_color()@.update(
                <Format as RedComponent<CHANNELS, Scalar>>::spec_index(),
                red,
            ),
    {
        *<Format as RedComponent<CHANNELS, Scalar>>::component_mut(&mut self.color) = red
    }
}

/// The Green color channel.
#[derive(Copy, Clone, Debug, Default, PartialEq, Eq)]
pub struct Green;

impl ColorComponent for Green {}

/// A color format that has a Green channel, at a fixed position among its `CHANNELS` channels.
pub trait GreenComponent<const CHANNELS: usize, Scalar> {
    /// The position of the Green channel.
    spec fn spec_index() -> int;

    /// The Green channel of an array of channel values.
    fn component(slice: &[Scalar; CHANNELS]) -> (value: Scalar)
        ensures
            0 <= Self::spec_index() < CHANNELS,
            value == slice@[Self::spec_index()],
    ;

    /// The Green channel of an array of channel values, to be written.
    fn component_mut(slice: &mut [Scalar; CHANNELS]) -> (value: &mut Scalar)
        ensures
            0 <= Self::spec_index() < CHANNELS,
            *value == old(slice)@[Self::spec_index()],
            final(slice)@ == old(slice)@.update(Self::spec_index(), *final(value)),
    ;
}

/// A pixel or color whose Green channel can be read.
pub trait HasGreen<Scalar> {
    /// The Green channel.
    spec fn spec_green(&self) -> Scalar;

    /// The Green channel.
    fn green(&self) -> (value: Scalar)
        ensures
            value == self.spec_green(),
    ;
}

/// A pixel or color whose Green channel can be written.
pub trait HasGreenMut<Scalar>: HasGreen<Scalar> {
    /// Set the Green channel.
    fn set_green(&mut self, green: Scalar)
        ensures
            final(self).spec_green() == green,
    ;
}

impl<'a, const CHANNELS: usize, C: Color<CHANNELS>> HasGreen<C::Scalar> for PixelView<'a, CHANNELS, C> where
    C::Format: GreenComponent<CHANNELS, C::Scalar>,
 {
    open spec fn spec_green(&self) -> C::Scalar {
        (*self.slice)@[<C::Format as GreenComponent<CHANNELS, C::Scalar>>::spec_index()]
    }

    fn green(&self) -> (value: C::Scalar) {
        <C::Format as GreenComponent<CHANNELS, C::Scalar>>::component(self.slice)
    }
}

impl<'a, const CHANNELS: usize, C: Color<CHANNELS>> HasGreen<C::Scalar> for PixelViewMut<'a, CHANNELS, C> where
    C::Format: GreenComponent<CHANNELS, C::Scalar>,
 {
    open spec fn spec_green(&self) -> C::Scalar {
        (*self.slice)@[<C::Format as GreenComponent<CHANNELS, C::Scalar>>::spec_index()]
    }

    fn green(&self) -> (value: C::Scalar) {
        <C::Format as GreenComponent<CHANNELS, C::Scalar>>::component(self.slice)
    }
}

impl<'a, const CHANNELS: usize, C: Color<CHANNELS>> HasGreenMut<C::Scalar> for PixelViewMut<'a, CHANNELS, C> where
    C::Format: GreenComponent<CHANNELS, C::Scalar>,
 {
    fn set_green(&mut self, green: C::Scalar)
        ensures
            (*final(self).slice)@ == (*old(self).slice)@.update(
                <C::Format as GreenComponent<CHANNELS, C::Scalar>>::spec_index(),
                green,
            ),
            *final(final(self).slice) == *final(old(self).slice),
    {
        *<C::Format as GreenComponent<CHANNELS, C::Scalar>>::component_mut(self.slice) = green
    }
}

impl<const CHANNELS: usize, Format, Scalar, Space> HasGreen<Scalar> for GenericColor<
    CHANNELS,
    Format,
    Scalar,
    Space,
> where Format: GreenComponent<CHANNELS, Scalar> {
    open spec fn spec_green(&self) -> Scalar {
        self.spec_color()@[<Format as GreenComponent<CHANNELS, Scalar>>::spec_index()]
    }

    fn green(&self) -> (value: Scalar) {
        <Format as GreenComponent<CHANNELS, Scalar>>::component(&self.color)
    }
}

impl<const CHANNELS: usize, Format, Scalar, Space> HasGreenMut<Scalar> for GenericColor<
    CHANNELS,
    Format,
    Scalar,
    Space,
> where Format: GreenComponent<CHANNELS, Scalar> {
    fn set_green(&mut self, green: Scalar)
        ensures
            final(self).spec_color()@ == old(self).spec_color()@.update(
                <Format as GreenComponent<CHANNELS, Scalar>>::spec_index(),
                green,
            ),
    {
        *<Format as GreenComponent<CHANNELS, Scalar>>::component_mut(&mut self.color) = green
    }
}

/// The Blue color channel.
#[derive(Copy, Clone, Debug, Default, PartialEq, Eq)]
pub struct Blue;

impl ColorComponent for Blue {}

/// A color format that has a Blue channel, at a fixed position among its `CHANNELS` channels.
pub trait BlueComponent<const CHANNELS: usize, Scalar> {
    /// The position of the Blue channel.
    spec fn spec_index() -> int;

    /// The Blue channel of an array of channel values.
    fn component(slice: &[Scalar; CHANNELS]) -> (value: Scalar)
        ensures
            0 <= Self::spec_index() < CHANNELS,
            value == slice@[Self::spec_index()],
    ;

    /// The Blue channel of an array of channel values, to be written.
    fn component_mut(slice: &mut [Scalar; CHANNELS]) -> (value: &mut Scalar)
        ensures
            0 <= Self::spec_index() < CHANNELS,
            *value == old(slice)@[Self::spec_index()],
            final(slice)@ == old(slice)@.update(Self::spec_index(), *final(value)),
    ;
}

/// A pixel or color whose Blue channel can be read.
pub trait HasBlue<Scalar> {
    /// The Blue channel.
    spec fn spec_blue(&self) -> Scalar;

    /// The Blue channel.
    fn blue(&self) -> (value: Scalar)
        ensures
            value == self.spec_blue(),
    ;
}

/// A pixel or color whose Blue channel can be written.
pub trait HasBlueMut<Scalar>: HasBlue<Scalar> {
    /// Set the Blue channel.
    fn set_blue(&mut self, blue: Scalar)
        ensures
            final(self).spec_blue() == blue,
    ;
}

impl<'a, const CHANNELS: usize, C: Color<CHANNELS>> HasBlue<C::Scalar> for PixelView<'a, CHANNELS, C> where
    C::Format: BlueComponent<CHANNELS, C::Scalar>,
 {
    open spec fn spec_blue(&self) -> C::Scalar {
        (*self.slice)@[<C::Format as BlueComponent<CHANNELS, C::Scalar>>::spec_index()]
    }

    fn blue(&self) -> (value: C::Scalar) {
        <C::Format as BlueComponent<CHANNELS, C::Scalar>>::component(self.slice)
    }
}

impl<'a, const CHANNELS: usize, C: Color<CHANNELS>> HasBlue<C::Scalar> for PixelViewMut<'a, CHANNELS, C> where
    C::Format: BlueComponent<CHANNELS, C::Scalar>,
 {
    open spec fn spec_blue(&self) -> C::Scalar {
        (*self.slice)@[<C::Format as BlueComponent<CHANNELS, C::Scalar>>::spec_index()]
    }

    fn blue(&self) -> (value: C::Scalar) {
        <C::Format as BlueComponent<CHANNELS, C::Scalar>>::component(self.slice)
    }
}

impl<'a, const CHANNELS: usize, C: Color<CHANNELS>> HasBlueMut<C::Scalar> for PixelViewMut<'a, CHANNELS, C> where
    C::Format: BlueComponent<CHANNELS, C::Scalar>,
 {
    fn set_blue(&mut self, blue: C::Scalar)
        ensures
            (*final(self).slice)@ == (*old(self).slice)@.update(
                <C::Format as BlueComponent<CHANNELS, C::Scalar>>::spec_index(),
                blue,
            ),
            *final(final(self).slice) == *final(old(self).slice),
    {
        *<C::Format as BlueComponent<CHANNELS, C::Scalar>>::component_mut(self.slice) = blue
    }
}

impl<const CHANNELS: usize, Format, Scalar, Space> HasBlue<Scalar> for GenericColor<
    CHANNELS,
    Format,
    Scalar,
    Space,
> where Format: BlueComponent<CHANNELS, Scalar> {
    open spec fn spec_blue(&self) -> Scalar {
        self.spec_color()@[<Format as BlueComponent<CHANNELS, Scalar>>::spec_index()]
    }

    fn blue(&self) -> (value: Scalar) {
        <Format as BlueComponent<CHANNELS, Scalar>>::component(&self.color)
    }
}

impl<const CHANNELS: usize, Format, Scalar, Space> HasBlueMut<Scalar> for GenericColor<
    CHANNELS,
    Format,
    Scalar,
    Space,
> where Format: BlueComponent<CHANNELS, Scalar> {
    fn set_blue(&mut self, blue: Scalar)
        ensures
            final(self).spec_color()@ == old(self).spec_color()@.update(
                <Format as BlueComponent<CHANNELS, Scalar>>::spec_index(),
                blue,
            ),
    {
        *<Format as BlueComponent<CHANNELS, Scalar>>::component_mut(&mut self.color) = blue
    }
}

/// The Alpha color channel.
#[derive(Copy, Clone, Debug, Default, PartialEq, Eq)]
pub struct Alpha;

impl ColorComponent for Alpha {}

/// A color format that has a Alpha channel, at a fixed position among its `CHANNELS` channels.
pub trait AlphaComponent<const CHANNELS: usize, Scalar> {
    /// The position of the Alpha channel.
    spec fn spec_index() -> int;

    /// The Alpha channel of an array of channel values.
    fn component(slice: &[Scalar; CHANNELS]) -> (value: Scalar)
        ensures
            0 <= Self::spec_index() < CHANNELS,
            value == slice@[Self::spec_index()],
    ;

    /// The Alpha channel of an array of channel values, to be written.
    fn component_mut(slice: &mut [Scalar; CHANNELS]) -> (value: &mut Scalar)
        ensures
            0 <= Self::spec_index() < CHANNELS,
            *value == old(slice)@[Self::spec_index()],
            final(slice)@ == old(slice)@.update(Self::spec_index(), *final(value)),
    ;
}

/// A pixel or color whose Alpha channel can be read.
pub trait HasAlpha<Scalar> {
    /// The Alpha channel.
    spec fn spec_alpha(&self) -> Scalar;

    /// The Alpha channel.
    fn alpha(&self) -> (value: Scalar)
        ensures
            value == self.spec_alpha(),
    ;
}

/// A pixel or color whose Alpha channel can be written.
pub trait HasAlphaMut<Scalar>: HasAlpha<Scalar> {
    /// Set the Alpha channel.
    fn set_alpha(&mut self, alpha: Scalar)
        ensures
            final(self).spec_alpha() == alpha,
    ;
}

impl<'a, const CHANNELS: usize, C: Color<CHANNELS>> HasAlpha<C::Scalar> for PixelView<'a, CHANNELS, C> where
    C::Format: AlphaComponent<CHANNELS, C::Scalar>,
 {
    open spec fn spec_alpha(&self) -> C::Scalar {
        (*self.slice)@[<C::Format as AlphaComponent<CHANNELS, C::Scalar>>::spec_index()]
    }

    fn alpha(&self) -> (value: C::Scalar) {
        <C::Format as AlphaComponent<CHANNELS, C::Scalar>>::component(self.slice)
    }
}

impl<'a, const CHANNELS: usize, C: Color<CHANNELS>> HasAlpha<C::Scalar> for PixelViewMut<'a, CHANNELS, C> where
    C::Format: AlphaComponent<CHANNELS, C::Scalar>,
 {
    open spec fn spec_alpha(&self) -> C::Scalar {
        (*self.slice)@[<C::Format as AlphaComponent<CHANNELS, C::Scalar>>::spec_index()]
    }

    fn alpha(&self) -> (value: C::Scalar) {
        <C::Format as AlphaComponent<CHANNELS, C::Scalar>>::component(self.slice)
    }
}

impl<'a, const CHANNELS: usize, C: Color<CHANNELS>> HasAlphaMut<C::Scalar> for PixelViewMut<'a, CHANNELS, C> where
    C::Format: AlphaComponent<CHANNELS, C::Scalar>,
 {
    fn set_alpha(&mut self, alpha: C::Scalar)
        ensures
            (*final(self).slice)@ == (*old(self).slice)@.update(
                <C::Format as AlphaComponent<CHANNELS, C::Scalar>>::spec_index(),
                alpha,
            ),
            *final(final(self).slice) == *final(old(self).slice),
    {
        *<C::Format as AlphaComponent<CHANNELS, C::Scalar>>::component_mut(self.slice) = alpha
    }
}

impl<const CHANNELS: usize, Format, Scalar, Space> HasAlpha<Scalar> for GenericColor<
    CHANNELS,
    Format,
    Scalar,
    Space,
> where Format: AlphaComponent<CHANNELS, Scalar> {
    open spec fn spec_alpha(&self) -> Scalar {
        self.spec_color()@[<Format as AlphaComponent<CHANNELS, Scalar>>::spec_index()]
    }

    fn alpha(&self) -> (value: Scalar) {
        <Format as AlphaComponent<CHANNELS, Scalar>>::component(&self.color)
    }
}

impl<const CHANNELS: usize, Format, Scalar, Space> HasAlphaMut<Scalar> for GenericColor<
    CHANNELS,
    Format,
    Scalar,
    Space,
> where Format: AlphaComponent<CHANNELS, Scalar> {
    fn set_alpha(&mut self, alpha: Scalar)
        ensures
            final(self).spec_color()@ == old(self).spec_color()@.update(
                <Format as AlphaComponent<CHANNELS, Scalar>>::spec_index(),
                alpha,
            ),
    {
        *<Format as AlphaComponent<CHANNELS, Scalar>>::component_mut(&mut self.color) = alpha
    }
}

/// The Y color channel.
#[derive(Copy, Clone, Debug, Default, PartialEq, Eq)]
pub struct Y;

impl ColorComponent for Y {}

/// A color format that has a Y channel, at a fixed position among its `CHANNELS` channels.
pub trait YComponent<const CHANNELS: usize, Scalar> {
    /// The position of the Y channel.
    spec fn spec_index() -> int;

    /// The Y channel of an array of channel values.
    fn component(slice: &[Scalar; CHANNELS]) -> (value: Scalar)
        ensures
            0 <= Self::spec_index() < CHANNELS,
            value == slice@[Self::spec_index()],
    ;

    /// The Y channel of an array of channel values, to be written.
    fn component_mut(slice: &mut [Scalar; CHANNELS]) -> (value: &mut Scalar)
        ensures
            0 <= Self::spec_index() < CHANNELS,
            *value == old(slice)@[Self::spec_index()],
            final(slice)@ == old(slice)@.update(Self::spec_index(), *final(value)),
    ;
}

/// A pixel or color whose Y channel can be read.
pub trait HasY<Scalar> {
    /// The Y channel.
    spec fn spec_y(&self) -> Scalar;

    /// The Y channel.
    fn y(&self) -> (value: Scalar)
        ensures
            value == self.spec_y(),
    ;
}

/// A pixel or color whose Y channel can be written.
pub trait HasYMut<Scalar>: HasY<Scalar> {
    /// Set the Y channel.
    fn set_y(&mut self, y: Scalar)
        ensures
            final(self).spec_y() == y,
    ;
}

impl<'a, const CHANNELS: usize, C: Color<CHANNELS>> HasY<C::Scalar> for PixelView<'a, CHANNELS, C> where
    C::Format: YComponent<CHANNELS, C::Scalar>,
 {
    open spec fn spec_y(&self) -> C::Scalar {
        (*self.slice)@[<C::Format as YComponent<CHANNELS, C::Scalar>>::spec_index()]
    }

    fn y(&self) -> (value: C::Scalar) {
        <C::Format as YComponent<CHANNELS, C::Scalar>>::component(self.slice)
    }
}

impl<'a, const CHANNELS: usize, C: Color<CHANNELS>> HasY<C::Scalar> for PixelViewMut<'a, CHANNELS, C> where
    C::Format: YComponent<CHANNELS, C::Scalar>,
 {
    open spec fn spec_y(&self) -> C::Scalar {
        (*self.slice)@[<C::Format as YComponent<CHANNELS, C::Scalar>>::spec_index()]
    }

    fn y(&self) -> (value: C::Scalar) {
        <C::Format as YComponent<CHANNELS, C::Scalar>>::component(self.slice)
    }
}

impl<'a, const CHANNELS: usize, C: Color<CHANNELS>> HasYMut<C::Scalar> for PixelViewMut<'a, CHANNELS, C> where
    C::Format: YComponent<CHANNELS, C::Scalar>,
 {
    fn set_y(&mut self, y: C::Scalar)
        ensures
            (*final(self).slice)@ == (*old(self).slice)@.update(
                <C::Format as YComponent<CHANNELS, C::Scalar>>::spec_index(),
                y,
            ),
            *final(final(self).slice) == *final(old(self).slice),
    {
        *<C::Format as YComponent<CHANNELS, C::Scalar>>::component_mut(self.slice) = y
    }
}

impl<const CHANNELS: usize, Format, Scalar, Space> HasY<Scalar> for GenericColor<
    CHANNELS,
    Format,
    Scalar,
    Space,
> where Format: YComponent<CHANNELS, Scalar> {
    open spec fn spec_y(&self) -> Scalar {
        self.spec_color()@[<Format as YComponent<CHANNELS, Scalar>>::spec_index()]
    }

    fn y(&self) -> (value: Scalar) {
        <Format as YComponent<CHANNELS, Scalar>>::component(&self.color)
    }
}

impl<const CHANNELS: usize, Format, Scalar, Space> HasYMut<Scalar> for GenericColor<
    CHANNELS,
    Format,
    Scalar,
    Space,
> where Format: YComponent<CHANNELS, Scalar> {
    fn set_y(&mut self, y: Scalar)
        ensures
            final(self).spec_color()@ == old(self).spec_color()@.update(
                <Format as YComponent<CHANNELS, Scalar>>::spec_index(),
                y,
            ),
    {
        *<Format as YComponent<CHANNELS, Scalar>>::component_mut(&mut self.color) = y
    }
}

} // verus!
