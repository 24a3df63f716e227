use image_interop::color::components::{HasAlpha, HasAlphaMut, HasBlue, HasGreen, HasRed, HasRedMut, HasY, HasYMut};
use image_interop::formats::{RGB, RGBA, Y, YA};
use image_interop::spaces::{UnknownRGB, SRGB};
use image_interop::{
    AssumeRGB, Color, ConvertColorFrom, ConvertColorTo, ConvertFormatFrom, GenericColor, PixelView,
    PixelViewMut,
};

type Rgb8 = GenericColor<3, RGB, u8, SRGB>;
type Rgba8 = GenericColor<4, RGBA, u8, SRGB>;

#[test]
fn generic_color_round_trips_through_arrays() {
    let color = Rgb8::from_array([1, 2, 3]);
    assert_eq!(color.to_array(), [1, 2, 3]);
    assert_eq!(color.color, [1, 2, 3]);
    let again = Rgb8::from_array(color.to_array());
    assert_eq!(again, color);
}

#[test]
fn generic_color_default_is_uniform() {
    let color: Rgba8 = Default::default();
    assert_eq!(color.to_array(), [0, 0, 0, 0]);
}

#[test]
fn components_read_and_write_their_channel() {
    let mut color = Rgba8::from_array([10, 20, 30, 40]);
    assert_eq!(color.red(), 10);
    assert_eq!(color.green(), 20);
    assert_eq!(color.blue(), 30);
    assert_eq!(color.alpha(), 40);
    color.set_red(11);
    color.set_alpha(44);
    assert_eq!(color.to_array(), [11, 20, 30, 44]);

    let mut gray = GenericColor::<2, YA, u16, SRGB>::from_array([500, 600]);
    assert_eq!(gray.y(), 500);
    gray.set_y(7);
    assert_eq!(gray.to_array(), [7, 600]);
    assert_eq!(gray.alpha(), 600);
}

#[test]
fn pixel_views_read_and_write_channels() {
    let samples = [1u8, 2, 3];
    let view: PixelView<3, Rgb8> = Rgb8::as_view(&samples);
    assert_eq!(view.red(), 1);
    assert_eq!(view.blue(), 3);
    assert_eq!(view.as_color().to_array(), [1, 2, 3]);
    let view = PixelView::<3, Rgb8>::new(&samples);
    assert_eq!(view.green(), 2);

    let mut buffer = [0u8; 3];
    {
        let mut view: PixelViewMut<3, Rgb8> = Rgb8::as_view_mut(&mut buffer);
        view.set_color(Rgb8::from_array([4, 5, 6]));
        assert_eq!(view.as_color().to_array(), [4, 5, 6]);
        view.set_red(9);
        assert_eq!(view.red(), 9);
    }
    assert_eq!(buffer, [9, 5, 6]);

    let mut luma = [3u8];
    {
        let mut view = PixelViewMut::<1, GenericColor<1, Y, u8, SRGB>>::new(&mut luma);
        view.set_y(8);
    }
    assert_eq!(luma, [8]);
}

#[test]
fn format_conversion_picks_components_by_name() {
    assert_eq!(<RGB as ConvertFormatFrom<3, RGB, u8>>::convert_array([1, 2, 3]), [1, 2, 3]);
    assert_eq!(<RGBA as ConvertFormatFrom<4, RGBA, u8>>::convert_array([1, 2, 3, 4]), [1, 2, 3, 4]);
    assert_eq!(<YA as ConvertFormatFrom<2, YA, u8>>::convert_array([5, 6]), [5, 6]);
}

#[test]
fn color_conversion_goes_both_ways() {
    let color = Rgb8::from_array([1, 2, 3]);
    let converted: Rgb8 = Rgb8::color_from(color);
    assert_eq!(converted.to_array(), [1, 2, 3]);
    let converted: Rgb8 = color.convert();
    assert_eq!(converted.to_array(), [1, 2, 3]);
}

#[test]
fn assuming_a_space_keeps_the_channels() {
    let color = GenericColor::<3, RGB, u8, UnknownRGB>::from_array([1, 2, 3]);
    let linear = color.assume_linear_rgb();
    assert_eq!(linear.to_array(), [1, 2, 3]);
    let srgb = color.assume_srgb();
    assert_eq!(srgb.to_array(), [1, 2, 3]);
    let rebuilt = image_interop::AssumedSrgb::<GenericColor<3, RGB, u8, UnknownRGB>>::from_array([7, 8, 9]);
    assert_eq!(rebuilt.to_array(), [7, 8, 9]);
}
