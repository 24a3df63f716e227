use image_interop::formats::RGB;
use image_interop::spaces::{LinearRGB, UnknownRGB, SRGB};
use image_interop::{
    Color, Error, GenericColor, GenericImage, ImageIter, ImageIterMut, ImageLayout, ImageView, ImageViewMut,
    InterleavedImageLayout, InterleavedLayoutOrder, LooseLayout, PackedLayout,
};

type Rgb8 = GenericColor<3, RGB, u8, SRGB>;
type UnknownRgb8 = GenericColor<3, RGB, u8, UnknownRGB>;

fn rgb(r: u8, g: u8, b: u8) -> Rgb8 {
    Rgb8::from_array([r, g, b])
}

#[test]
fn new_packed_image_is_zeroed_row_major() {
    let image = GenericImage::<3, Rgb8, PackedLayout>::new(4, 2).unwrap();
    assert_eq!(image.buffer().len(), 24);
    assert!(image.buffer().iter().all(|s| *s == 0));
    let layout = image.layout();
    assert_eq!(layout.width(), 4);
    assert_eq!(layout.height(), 2);
    assert_eq!(layout.channels(), 3);
}

#[test]
fn new_image_rejects_bad_sizes() {
    assert_eq!(GenericImage::<3, Rgb8, PackedLayout>::new(0, 2).err(), Some(Error::ZeroWidth));
    assert_eq!(GenericImage::<3, Rgb8, PackedLayout>::new(2, 0).err(), Some(Error::ZeroHeight));
    assert_eq!(GenericImage::<3, Rgb8, LooseLayout>::new(0, 2).err(), Some(Error::ZeroWidth));
}

#[test]
fn from_buffer_checks_channels_and_size() {
    let layout = PackedLayout::new(3, 2, 2, InterleavedLayoutOrder::RowMajor).unwrap();
    let too_small = GenericImage::<3, Rgb8, PackedLayout>::from_buffer(vec![0u8; 11], layout);
    assert_eq!(too_small.err(), Some(Error::BufferTooSmall));
    let four = PackedLayout::new(4, 2, 2, InterleavedLayoutOrder::RowMajor).unwrap();
    let wrong = GenericImage::<3, Rgb8, PackedLayout>::from_buffer(vec![0u8; 16], four);
    assert_eq!(wrong.err(), Some(Error::WrongChannelCount));
    let image = GenericImage::<3, Rgb8, PackedLayout>::from_buffer((0u8..13).collect(), layout).unwrap();
    assert_eq!(image.into_buffer(), (0u8..13).collect::<Vec<u8>>());
}

#[test]
fn put_then_get_gives_the_pixel_back() {
    let mut image = GenericImage::<3, Rgb8, LooseLayout>::new(3, 2).unwrap();
    image.put_pixel(2, 1, rgb(10, 20, 30)).unwrap();
    image.put_pixel(0, 0, rgb(1, 2, 3)).unwrap();
    assert_eq!(image.get_pixel(2, 1).unwrap().to_array(), [10, 20, 30]);
    assert_eq!(image.get_pixel(0, 0).unwrap().to_array(), [1, 2, 3]);
    assert_eq!(image.get_pixel(1, 0).unwrap().to_array(), [0, 0, 0]);
    // Row-major packed: pixel (2, 1) starts at (2 + 1 * 3) * 3.
    assert_eq!(&image.buffer()[15..18], &[10, 20, 30]);
}

#[test]
fn out_of_bounds_access_is_refused() {
    let mut image = GenericImage::<3, Rgb8, LooseLayout>::new(3, 2).unwrap();
    assert_eq!(image.get_pixel(3, 0).err(), Some(Error::PixelOutOfBounds));
    assert_eq!(image.put_pixel(0, 2, rgb(1, 1, 1)), Err(Error::PixelOutOfBounds));
    assert!(image.buffer().iter().all(|s| *s == 0));
    assert!(image.in_bounds(2, 1));
    assert!(!image.in_bounds(2, 2));
    assert_eq!(image.dimensions(), (3, 2));
    assert_eq!(image.width(), 3);
    assert_eq!(image.height(), 2);
    assert_eq!(ImageView::channels(&image), 3);
}

#[test]
fn put_on_a_loose_layout_with_strides() {
    // Planar: each channel on its own plane of 2 x 2 samples.
    let layout = LooseLayout::new(3, 2, 2, 4, 1, 2).unwrap();
    let mut image = GenericImage::<3, Rgb8, LooseLayout>::from_buffer(vec![0u8; 12], layout).unwrap();
    image.put_pixel(1, 1, rgb(7, 8, 9)).unwrap();
    assert_eq!(image.buffer().clone(), vec![0, 0, 0, 7, 0, 0, 0, 8, 0, 0, 0, 9]);
    assert_eq!(image.get_pixel(1, 1).unwrap().to_array(), [7, 8, 9]);
}

#[test]
fn copy_from_copies_every_pixel() {
    let mut source = GenericImage::<3, Rgb8, LooseLayout>::new(2, 2).unwrap();
    for y in 0..2u32 {
        for x in 0..2u32 {
            source.put_pixel(x, y, rgb(x as u8, y as u8, 9)).unwrap();
        }
    }
    let mut target = GenericImage::<3, Rgb8, LooseLayout>::new(2, 2).unwrap();
    assert_eq!(target.copy_from(&source, 0, 0), Ok(()));
    for y in 0..2u32 {
        for x in 0..2u32 {
            assert_eq!(target.get_pixel(x, y).unwrap().to_array(), [x as u8, y as u8, 9]);
        }
    }
    let mut small = GenericImage::<3, Rgb8, LooseLayout>::new(1, 2).unwrap();
    assert_eq!(small.copy_from(&source, 0, 0), Err(Error::SizeMismatch));
    assert!(small.buffer().iter().all(|s| *s == 0));
}

#[test]
fn enumerate_pixels_visits_each_pixel_with_its_coordinates() {
    let layout = PackedLayout::new(2, 3, 2, InterleavedLayoutOrder::RowMajor).unwrap();
    let image = GenericImage::<2, GenericColor<2, image_interop::formats::YA, u8, SRGB>, PackedLayout>::from_buffer(
        (0u8..12).collect(),
        layout,
    )
    .unwrap();
    let pixels = image.enumerate_pixels();
    assert_eq!(pixels.len(), 6);
    let coordinates: Vec<(u32, u32)> = pixels.iter().map(|(x, y, _)| (*x, *y)).collect();
    assert_eq!(coordinates, vec![(0, 0), (1, 0), (2, 0), (0, 1), (1, 1), (2, 1)]);
    for (x, y, view) in pixels.iter() {
        let index = layout.pixel_index_unchecked(*x, *y);
        assert_eq!(&view.slice[..], &image.buffer()[index..index + 2]);
    }
    let views = image.iter_pixels();
    assert_eq!(views.len(), 6);
    assert_eq!(views[4].slice, &[8, 9]);
}

#[test]
fn enumerate_pixels_column_major() {
    let layout = PackedLayout::new(1, 2, 3, InterleavedLayoutOrder::ColumnMajor).unwrap();
    let image = GenericImage::<1, GenericColor<1, image_interop::formats::Y, u8, SRGB>, PackedLayout>::from_buffer(
        vec![10, 11, 12, 13, 14, 15],
        layout,
    )
    .unwrap();
    let pixels = image.enumerate_pixels();
    let seen: Vec<(u32, u32, u8)> = pixels.iter().map(|(x, y, v)| (*x, *y, v.slice[0])).collect();
    assert_eq!(seen, vec![(0, 0, 10), (0, 1, 11), (0, 2, 12), (1, 0, 13), (1, 1, 14), (1, 2, 15)]);
}

#[test]
fn convert_color_converts_every_pixel() {
    let layout = PackedLayout::new(3, 2, 1, InterleavedLayoutOrder::RowMajor).unwrap();
    let image = GenericImage::<3, Rgb8, PackedLayout>::from_buffer(vec![1, 2, 3, 4, 5, 6], layout).unwrap();
    let converted: GenericImage<3, Rgb8, PackedLayout> = image.convert_color();
    assert_eq!(converted.buffer().clone(), vec![1, 2, 3, 4, 5, 6]);
    assert_eq!(converted.layout(), layout);
}

#[test]
fn convert_color_leaves_trailing_samples() {
    let layout = PackedLayout::new(3, 1, 1, InterleavedLayoutOrder::RowMajor).unwrap();
    let image = GenericImage::<3, Rgb8, PackedLayout>::from_buffer(vec![1, 2, 3, 4, 5], layout).unwrap();
    let converted: GenericImage<3, Rgb8, PackedLayout> = image.convert_color();
    assert_eq!(converted.into_buffer(), vec![1, 2, 3, 4, 5]);
}

#[test]
fn transmute_and_assume_keep_samples() {
    let image = GenericImage::<3, UnknownRgb8, PackedLayout>::from_buffer(
        vec![1, 2, 3],
        PackedLayout::new(3, 1, 1, InterleavedLayoutOrder::RowMajor).unwrap(),
    )
    .unwrap();
    let linear = image.assume_linear_rgb();
    assert_eq!(linear.buffer().clone(), vec![1, 2, 3]);
    let srgb: GenericImage<3, GenericColor<3, RGB, u8, LinearRGB>, PackedLayout> =
        linear.transmute_color();
    assert_eq!(srgb.into_buffer(), vec![1, 2, 3]);
}

#[test]
fn shrink_channels_drops_trailing_channels() {
    let layout = PackedLayout::new(4, 2, 1, InterleavedLayoutOrder::RowMajor).unwrap();
    let image = GenericImage::<4, GenericColor<4, image_interop::formats::RGBA, u8, SRGB>, PackedLayout>::from_buffer(
        vec![1, 2, 3, 4, 5, 6, 7, 8],
        layout,
    )
    .unwrap();
    let rgb = image.shrink_channels::<3, Rgb8>().unwrap();
    assert_eq!(rgb.get_pixel(1, 0).unwrap().to_array(), [5, 6, 7]);
    assert_eq!(rgb.get_pixel(0, 0).unwrap().to_array(), [1, 2, 3]);

    let image = GenericImage::<3, Rgb8, PackedLayout>::new(1, 1).unwrap();
    let wider = image.shrink_channels::<4, GenericColor<4, image_interop::formats::RGBA, u8, SRGB>>();
    assert_eq!(wider.err(), Some(Error::TooManyChannels));
}

type Rgb16 = GenericColor<3, RGB, u16, SRGB>;

#[test]
fn from_bytes_reads_one_scalar_per_byte() {
    let layout = PackedLayout::new(3, 2, 1, InterleavedLayoutOrder::RowMajor).unwrap();
    let bytes: Vec<u8> = (1u8..=6).collect();
    let image = GenericImage::<3, Rgb8, PackedLayout>::from_bytes(&bytes, layout).unwrap();
    assert_eq!(image.into_buffer(), bytes);
}

#[test]
fn from_bytes_reads_multi_byte_scalars_in_machine_order() {
    let layout = PackedLayout::new(3, 1, 1, InterleavedLayoutOrder::RowMajor).unwrap();
    let bytes = [1u8, 2, 3, 4, 5, 6, 7];
    let image = GenericImage::<3, Rgb16, PackedLayout>::from_bytes(&bytes, layout).unwrap();
    let expected: Vec<u16> = vec![
        u16::from_ne_bytes([1, 2]),
        u16::from_ne_bytes([3, 4]),
        u16::from_ne_bytes([5, 6]),
    ];
    assert_eq!(image.buffer(), &expected);
    assert!(image.buffer()[0] == 0x0201 || image.buffer()[0] == 0x0102);
}

#[test]
fn from_bytes_refuses_too_few_bytes() {
    let layout = PackedLayout::new(3, 1, 1, InterleavedLayoutOrder::RowMajor).unwrap();
    let result = GenericImage::<3, Rgb16, PackedLayout>::from_bytes(&[0u8; 5], layout);
    assert_eq!(result.err(), Some(Error::BufferTooSmall));
    let four = PackedLayout::new(4, 1, 1, InterleavedLayoutOrder::RowMajor).unwrap();
    let wrong = GenericImage::<3, Rgb8, PackedLayout>::from_bytes(&[0u8; 8], four);
    assert_eq!(wrong.err(), Some(Error::WrongChannelCount));
}

#[test]
fn writes_through_mutable_views_land_in_the_buffer() {
    let layout = PackedLayout::new(3, 2, 1, InterleavedLayoutOrder::RowMajor).unwrap();
    let mut image =
        GenericImage::<3, Rgb8, PackedLayout>::from_buffer(vec![1, 2, 3, 4, 5, 6, 7], layout).unwrap();
    {
        let mut views = image.iter_pixels_mut();
        assert_eq!(views.len(), 2);
        assert_eq!(views[1].slice, &[4, 5, 6]);
        assert_eq!(views[0].as_color().to_array(), [1, 2, 3]);
        views[1].set_color(rgb(40, 50, 60));
    }
    assert_eq!(image.buffer().clone(), vec![1, 2, 3, 40, 50, 60, 7]);
}

#[test]
fn enumerate_pixels_mut_gives_coordinates_and_writable_pixels() {
    let layout = PackedLayout::new(1, 2, 2, InterleavedLayoutOrder::ColumnMajor).unwrap();
    let mut image = GenericImage::<1, GenericColor<1, image_interop::formats::Y, u8, SRGB>, PackedLayout>::from_buffer(
        vec![0, 1, 2, 3],
        layout,
    )
    .unwrap();
    {
        let pixels = image.enumerate_pixels_mut();
        let coordinates: Vec<(u32, u32)> = pixels.iter().map(|(x, y, _)| (*x, *y)).collect();
        assert_eq!(coordinates, vec![(0, 0), (0, 1), (1, 0), (1, 1)]);
        for (x, y, mut view) in pixels {
            let value = (10 * x + y) as u8;
            view.set_color(GenericColor::from_array([value]));
        }
    }
    assert_eq!(image.into_buffer(), vec![0, 1, 10, 11]);
}

#[test]
fn iteration_stops_at_the_last_pixel_of_the_image() {
    let layout = PackedLayout::new(3, 1, 2, InterleavedLayoutOrder::RowMajor).unwrap();
    let mut image =
        GenericImage::<3, Rgb8, PackedLayout>::from_buffer((0u8..9).collect(), layout).unwrap();
    let coordinates: Vec<(u32, u32)> = image.enumerate_pixels().iter().map(|(x, y, _)| (*x, *y)).collect();
    assert_eq!(coordinates, vec![(0, 0), (0, 1)]);
    assert_eq!(image.iter_pixels().len(), 2);
    assert_eq!(image.iter_pixels_mut().len(), 2);
    assert_eq!(image.enumerate_pixels_mut().len(), 2);
    let converted: GenericImage<3, Rgb8, PackedLayout> = image.convert_color();
    assert_eq!(converted.into_buffer(), (0u8..9).collect::<Vec<u8>>());
}

#[test]
fn convert_to_rewrites_one_pixel() {
    let layout = PackedLayout::new(3, 2, 1, InterleavedLayoutOrder::RowMajor).unwrap();
    let mut image = GenericImage::<3, Rgb8, PackedLayout>::from_buffer(vec![1, 2, 3, 4, 5, 6], layout).unwrap();
    {
        let mut views = image.iter_pixels_mut();
        views[1].convert_to::<Rgb8>();
    }
    assert_eq!(image.into_buffer(), vec![1, 2, 3, 4, 5, 6]);
    assert_eq!(image_interop::convert_samples::<3, Rgb8, Rgb8>([7, 8, 9]), [7, 8, 9]);
}
