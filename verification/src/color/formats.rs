use vstd::prelude::*;

use crate::color::components::{AlphaComponent, BlueComponent, GreenComponent, RedComponent, YComponent};
use crate::traits::{ColorFormat, ConvertFormatFrom, ScalarPrimitive};

verus! {

/// The red, green and blue color format.
#[derive(Copy, Clone, Debug, Default, PartialEq, Eq)]
pub struct RGB;

impl ColorFormat<3> for RGB {}

impl<From, Scalar> ConvertFormatFrom<3, From, Scalar> for RGB where
    From: ColorFormat<3> + RedComponent<3, Scalar> + GreenComponent<3, Scalar> + BlueComponent<3, Scalar>,
 {
    open spec fn spec_convert_array(array: [Scalar; 3]) -> [Scalar; 3] {
        [array[<From as RedComponent<3, Scalar>>::spec_index()], array[<From as GreenComponent<3, Scalar>>::spec_index()], array[<From as BlueComponent<3, Scalar>>::spec_index()]]
    }

    fn convert_array(array: [Scalar; 3]) -> (converted: [Scalar; 3]) {
        [<From as RedComponent<3, Scalar>>::component(&array), <From as GreenComponent<3, Scalar>>::component(&array), <From as BlueComponent<3, Scalar>>::component(&array)]
    }
}

impl<Scalar: ScalarPrimitive> RedComponent<3, Scalar> for RGB {
    open spec fn spec_index() -> int {
        0
    }

    fn component(array: &[Scalar; 3]) -> (value: Scalar) {
        array[0]
    }

    fn component_mut(array: &mut [Scalar; 3]) -> (value: &mut Scalar) {
        &mut array[0]
    }
}

impl<Scalar: ScalarPrimitive> GreenComponent<3, Scalar> for RGB {
    open spec fn spec_index() -> int {
        1
    }

    fn component(array: &[Scalar; 3]) -> (value: Scalar) {
        array[1]
    }

    fn component_mut(array: &mut [Scalar; 3]) -> (value: &mut Scalar) {
        &mut array[1]
    }
}

impl<Scalar: ScalarPrimitive> BlueComponent<3, Scalar> for RGB {
    open spec fn spec_index() -> int {
        2
    }

    fn component(array: &[Scalar; 3]) -> (value: Scalar) {
        array[2]
    }

    fn component_mut(array: &mut [Scalar; 3]) -> (value: &mut Scalar) {
        &mut array[2]
    }
}

/// The red, green, blue and alpha color format.
#[derive(Copy, Clone, Debug, Default, PartialEq, Eq)]
pub struct RGBA;

impl ColorFormat<4> for RGBA {}

impl<From, Scalar> ConvertFormatFrom<4, From, Scalar> for RGBA where
    From: ColorFormat<4> + RedComponent<4, Scalar> + GreenComponent<4, Scalar> + BlueComponent<4, Scalar> + AlphaComponent<4, Scalar>,
 {
    open spec fn spec_convert_array(array: [Scalar; 4]) -> [Scalar; 4] {
        [array[<From as RedComponent<4, Scalar>>::spec_index()], array[<From as GreenComponent<4, Scalar>>::spec_index()], array[<From as BlueComponent<4, Scalar>>::spec_index()], array[<From as AlphaComponent<4, Scalar>>::spec_index()]]
    }

    fn convert_array(array: [Scalar; 4]) -> (converted: [Scalar; 4]) {
        [<From as RedComponent<4, Scalar>>::component(&array), <From as GreenComponent<4, Scalar>>::component(&array), <From as BlueComponent<4, Scalar>>::component(&array), <From as AlphaComponent<4, Scalar>>::component(&array)]
    }
}

impl<Scalar: ScalarPrimitive> RedComponent<4, Scalar> for RGBA {
    open spec fn spec_index() -> int {
        0
    }

    fn component(array: &[Scalar; 4]) -> (value: Scalar) {
        array[0]
    }

    fn component_mut(array: &mut [Scalar; 4]) -> (value: &mut Scalar) {
        &mut array[0]
    }
}

impl<Scalar: ScalarPrimitive> GreenComponent<4, Scalar> for RGBA {
    open spec fn spec_index() -> int {
        1
    }

    fn component(array: &[Scalar; 4]) -> (value: Scalar) {
        array[1]
    }

    fn component_mut(array: &mut [Scalar; 4]) -> (value: &mut Scalar) {
        &mut array[1]
    }
}

impl<Scalar: ScalarPrimitive> BlueComponent<4, Scalar> for RGBA {
    open spec fn spec_index() -> int {
        2
    }

    fn component(array: &[Scalar; 4]) -> (value: Scalar) {
        array[2]
    }

    fn component_mut(array: &mut [Scalar; 4]) -> (value: &mut Scalar) {
        &mut array[2]
    }
}

impl<Scalar: ScalarPrimitive> AlphaComponent<4, Scalar> for RGBA {
    open spec fn spec_index() -> int {
        3
    }

    fn component(array: &[Scalar; 4]) -> (value: Scalar) {
        array[3]
    }

    fn component_mut(array: &mut [Scalar; 4]) -> (value: &mut Scalar) {
        &mut array[3]
    }
}

/// The luminance color format.
#[derive(Copy, Clone, Debug, Default, PartialEq, Eq)]
pub struct Y;

impl ColorFormat<1> for Y {}

impl<From, Scalar> ConvertFormatFrom<1, From, Scalar> for Y where
    From: ColorFormat<1> + YComponent<1, Scalar>,
 {
    open spec fn spec_convert_array(array: [Scalar; 1]) -> [Scalar; 1] {
        [array[<From as YComponent<1, Scalar>>::spec_index()]]
    }

    fn convert_array(array: [Scalar; 1]) -> (converted: [Scalar; 1]) {
        [<From as YComponent<1, Scalar>>::component(&array)]
    }
}

impl<Scalar: ScalarPrimitive> YComponent<1, Scalar> for Y {
    open spec fn spec_index() -> int {
        0
    }

    fn component(array: &[Scalar; 1]) -> (value: Scalar) {
        array[0]
    }

    fn component_mut(array: &mut [Scalar; 1]) -> (value: &mut Scalar) {
        &mut array[0]
    }
}

/// The luminance and alpha color format.
#[derive(Copy, Clone, Debug, Default, PartialEq, Eq)]
pub struct YA;

impl ColorFormat<2> for YA {}

impl<From, Scalar> ConvertFormatFrom<2, From, Scalar> for YA where
    From: ColorFormat<2> + YComponent<2, Scalar> + AlphaComponent<2, Scalar>,
 {
    open spec fn spec_convert_array(array: [Scalar; 2]) -> [Scalar; 2] {
        [array[<From as YComponent<2, Scalar>>::spec_index()], array[<From as AlphaComponent<2, Scalar>>::spec_index()]]
    }

    fn convert_array(array: [Scalar; 2]) -> (converted: [Scalar; 2]) {
        [<From as YComponent<2, Scalar>>::component(&array), <From as AlphaComponent<2, Scalar>>::component(&array)]
    }
}

impl<Scalar: ScalarPrimitive> YComponent<2, Scalar> for YA {
    open spec fn spec_index() -> int {
        0
    }

    fn component(array: &[Scalar; 2]) -> (value: Scalar) {
        array[0]
    }

    fn component_mut(array: &mut [Scalar; 2]) -> (value: &mut Scalar) {
        &mut array[0]
    }
}

impl<Scalar: ScalarPrimitive> AlphaComponent<2, Scalar> for YA {
    open spec fn spec_index() -> int {
        1
    }

    fn component(array: &[Scalar; 2]) -> (value: Scalar) {
        array[1]
    }

    fn component_mut(array: &mut [Scalar; 2]) -> (value: &mut Scalar) {
        &mut array[1]
    }
}

} // verus!
