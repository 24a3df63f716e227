use image_interop::generic_color::Color as GenericPixelColor;
use image_interop::pixel::{ColorFormat, Pixel, PixelToComponents, PixelView, PixelViewMut};
use image_interop::iter::{Image, ImageIter, ImageIterMut};
use image_interop::layout::ImageLayout as StridedLayout;
use image_interop::{Error, ScalarPrimitive};

#[derive(Copy, Clone, Debug, Default, PartialEq, Eq)]
struct Rgb;

impl<S: ScalarPrimitive> ColorFormat<S> for Rgb {
    const CHANNELS: usize = 3;
}

type RgbPixel = GenericPixelColor<3, Rgb, u8>;

#[test]
fn pixel_views_check_the_slice_length() {
    let samples = [1u8, 2, 3];
    let view = PixelView::<RgbPixel>::new(&samples).unwrap();
    assert_eq!(view.as_pixel().to_array(), [1, 2, 3]);
    assert_eq!(PixelView::<RgbPixel>::new(&samples[..2]).err(), Some(Error::SliceLengthMismatch));
    assert!(RgbPixel::as_view(&samples[..1]).is_err());
    assert_eq!(RgbPixel::as_view_unchecked(&samples).slice, &samples[..]);

    let mut buffer = [0u8; 4];
    assert_eq!(PixelViewMut::<RgbPixel>::new(&mut buffer).err(), Some(Error::SliceLengthMismatch));
    {
        let mut view = PixelViewMut::<RgbPixel>::new(&mut buffer[1..]).unwrap();
        view.set_pixel(RgbPixel::from_array([7, 8, 9]));
        assert_eq!(view.as_pixel().to_tuple(), (7, 8, 9));
    }
    assert_eq!(buffer, [0, 7, 8, 9]);
    let mut other = [1u8, 1, 1];
    {
        let mut view = RgbPixel::as_view_mut(&mut other).unwrap();
        view.set_pixel(RgbPixel::from_tuple((4, 5, 6)));
    }
    assert_eq!(other, [4, 5, 6]);
}

#[test]
fn pixels_convert_between_slices_tuples_and_arrays() {
    assert_eq!(RgbPixel::CHANNELS, 3);
    let pixel = RgbPixel::from_slice(&[1, 2, 3]).unwrap();
    assert_eq!(pixel.to_tuple(), (1, 2, 3));
    assert_eq!(RgbPixel::from_slice(&[1, 2]).err(), Some(Error::SliceLengthMismatch));
    assert_eq!(RgbPixel::from_tuple((4, 5, 6)).to_array(), [4, 5, 6]);
    let gray = GenericPixelColor::<1, Rgb, u16>::from_tuple((9,));
    assert_eq!(gray.to_array(), [9]);
    let wide = GenericPixelColor::<12, Rgb, u8>::from_array([1, 2, 3, 4, 5, 6, 7, 8, 9, 10, 11, 12]);
    assert_eq!(wide.to_tuple().11, 12);
    let unit: GenericPixelColor<3, Rgb, u8> = Default::default();
    assert_eq!(unit.color, [0, 0, 0]);
}

#[test]
fn error_messages() {
    assert_eq!(Error::PixelOutOfBounds.message(), "Pixel x y coordinates out of bounds");
    assert_eq!(Error::SizeMismatch.message(), "Image sizes do not match");
}

#[test]
fn strided_image_enumerates_each_pixel_once_skipping_padding() {
    // Row major, 2 x 2 pixels of 3 samples, one sample of padding after each pixel and two after each row.
    let layout = StridedLayout::new(2, 2, 4, 10);
    let buffer: Vec<u8> = (0u8..17).collect();
    let image = Image::<RgbPixel>::from_buffer(buffer.clone(), layout).unwrap();
    assert_eq!(image.iter_strides(), (10, 2, 4, 3));
    let pixels = image.enumerate_pixels();
    let seen: Vec<(u32, u32, Vec<u8>)> = pixels.iter().map(|(x, y, v)| (*x, *y, v.slice.to_vec())).collect();
    assert_eq!(
        seen,
        vec![
            (0, 0, vec![0, 1, 2]),
            (1, 0, vec![4, 5, 6]),
            (0, 1, vec![10, 11, 12]),
            (1, 1, vec![14, 15, 16]),
        ]
    );
    assert_eq!(image.iter_pixels()[3].slice, &[14, 15, 16]);

    // Column major: the same pixels walked down the columns.
    let column = StridedLayout::new(2, 2, 10, 4);
    let image = Image::<RgbPixel>::from_buffer(buffer.clone(), column).unwrap();
    assert_eq!(image.iter_strides(), (10, 2, 4, 3));
    let coordinates: Vec<(u32, u32)> = image.enumerate_pixels().iter().map(|(x, y, _)| (*x, *y)).collect();
    assert_eq!(coordinates, vec![(0, 0), (0, 1), (1, 0), (1, 1)]);

    assert_eq!(
        Image::<RgbPixel>::from_buffer(buffer.clone(), StridedLayout::new(2, 1, 0, 0)).err(),
        Some(Error::InvalidStrides)
    );
    assert_eq!(Image::<RgbPixel>::from_buffer(vec![0u8; 16], layout).err(), Some(Error::BufferTooSmall));
    // Pixels two samples apart would overlap.
    assert_eq!(
        Image::<RgbPixel>::from_buffer(buffer.clone(), StridedLayout::new(2, 1, 2, 10)).err(),
        Some(Error::InvalidStrides)
    );
}

#[test]
fn strided_image_hands_out_writable_pixels() {
    let layout = StridedLayout::new(2, 2, 4, 10);
    let mut image = Image::<RgbPixel>::from_buffer(vec![0u8; 17], layout).unwrap();
    {
        let pixels = image.enumerate_pixels_mut();
        assert_eq!(pixels.len(), 4);
        for (x, y, mut view) in pixels {
            view.set_pixel(RgbPixel::from_array([x as u8 + 1, y as u8 + 1, 9]));
        }
    }
    assert_eq!(
        image.buffer().clone(),
        vec![1, 1, 9, 0, 2, 1, 9, 0, 0, 0, 1, 2, 9, 0, 2, 2, 9]
    );
    {
        let mut views = image.iter_pixels_mut();
        assert_eq!(views.len(), 4);
        assert_eq!(&views[1].slice[..], &[2, 1, 9]);
        views[3].set_pixel(RgbPixel::from_array([7, 7, 7]));
    }
    assert_eq!(&image.buffer()[14..17], &[7, 7, 7]);
    assert_eq!(image.buffer()[13], 0);
}

#[test]
fn pixel_channel_count_comes_from_the_format() {
    type Mismatched = GenericPixelColor<4, Rgb, u8>;
    assert_eq!(<Mismatched as Pixel>::CHANNELS, 3);
    let samples = [1u8, 2, 3, 4];
    assert!(PixelView::<Mismatched>::new(&samples).is_err());
    assert!(PixelView::<Mismatched>::new(&samples[..3]).is_ok());
}
