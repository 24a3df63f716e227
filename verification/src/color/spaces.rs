use vstd::prelude::*;

use crate::traits::ColorSpace;

verus! {

/// A color space with sRGB primaries, but unknown whether its transfer function is linear or nonlinear with gamma. The library client needs to make a choice based on any assumptions they can make.
#[derive(Copy, Clone, Debug, Default, PartialEq, Eq)]
pub struct UnknownRGB;

impl ColorSpace for UnknownRGB {}

/// The linear-light RGB color space with sRGB primaries.
#[derive(Copy, Clone, Debug, Default, PartialEq, Eq)]
pub struct LinearRGB;

impl ColorSpace for LinearRGB {}

/// The standard RGB color space.
#[derive(Copy, Clone, Debug, Default, PartialEq, Eq)]
pub struct SRGB;

impl ColorSpace for SRGB {}

/// The hue, saturation, lightness color space.
#[derive(Copy, Clone, Debug, Default, PartialEq, Eq)]
pub struct HSL;

impl ColorSpace for HSL {}

/// The hue, saturation, value color space.
#[derive(Copy, Clone, Debug, Default, PartialEq, Eq)]
pub struct HSV;

impl ColorSpace for HSV {}

/// The hue, whiteness, blackness color space.
#[derive(Copy, Clone, Debug, Default, PartialEq, Eq)]
pub struct HWB;

impl ColorSpace for HWB {}

/// The CIE L*a*b* color space.
#[derive(Copy, Clone, Debug, Default, PartialEq, Eq)]
pub struct CieLab;

impl ColorSpace for CieLab {}

/// The CIE L*C*h color space.
#[derive(Copy, Clone, Debug, Default, PartialEq, Eq)]
pub struct CieLCh;

impl ColorSpace for CieLCh {}

/// The CIE XYZ color space.
#[derive(Copy, Clone, Debug, Default, PartialEq, Eq)]
pub struct CieXYZ;

impl ColorSpace for CieXYZ {}

/// The Oklab color space.
#[derive(Copy, Clone, Debug, Default, PartialEq, Eq)]
pub struct OkLab;

impl ColorSpace for OkLab {}

/// The Oklch color space.
#[derive(Copy, Clone, Debug, Default, PartialEq, Eq)]
pub struct OkLCh;

impl ColorSpace for OkLCh {}

} // verus!
