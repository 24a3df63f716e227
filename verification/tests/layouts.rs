use image_interop::layout::ImageLayout as StridedLayout;
use image_interop::{
    ChannelSeparatedLayout, ChannelSeparatedLayoutOrder, ChannelShrinkable, Error, ImageLayout,
    InterleavedImageLayout, InterleavedLayout, InterleavedLayoutOrder, LooseLayout, LooseLayoutOrder,
    PackedLayout,
};

#[test]
fn strided_layout_packed_constructors() {
    let row = StridedLayout::row_major_packed(3, 4, 2);
    assert_eq!(row, StridedLayout::new(4, 2, 3, 12));
    assert!(row.is_row_major());
    assert!(row.is_well_formed());
    assert_eq!(row.major_minor_strides(), Some((12, 3)));
    assert_eq!(row.major_minor_sidelengths(), Some((2, 4)));
    assert_eq!(row.total_visible_pixels(), 8);
    assert_eq!(row.total_padded_pixels(), Some(24));
    assert_eq!(row.index(1, 1), 15);

    let column = StridedLayout::column_major_packed(3, 4, 2);
    assert_eq!(column, StridedLayout::new(4, 2, 6, 3));
    assert!(column.is_column_major());
    assert!(!column.is_row_major());
    assert_eq!(column.major_minor_strides(), Some((6, 3)));
    assert_eq!(column.major_minor_sidelengths(), Some((4, 2)));
    assert_eq!(column.total_padded_pixels(), Some(24));
    assert_eq!(column.index(1, 1), 9);
}

#[test]
fn strided_layout_that_is_neither_major() {
    let layout = StridedLayout::new(4, 4, 2, 3);
    assert!(!layout.is_row_major());
    assert!(!layout.is_column_major());
    assert!(!layout.is_well_formed());
    assert_eq!(layout.major_minor_strides(), None);
    assert!(StridedLayout::new(2, 1, 0, 0).is_row_major());
    assert!(!StridedLayout::new(2, 1, 0, 0).is_well_formed());
    assert!(!StridedLayout::new(0, 1, 3, 3).is_well_formed());
    // One column of two pixels: the x stride never matters.
    assert!(StridedLayout::new(1, 2, 0, 1).is_well_formed());
    assert_eq!(layout.major_minor_sidelengths(), None);
    assert_eq!(layout.total_padded_pixels(), None);
}

#[test]
fn strided_layout_compares_without_overflow() {
    let layout = StridedLayout::new(u32::MAX, 1, usize::MAX, 1);
    assert!(!layout.is_row_major());
    assert!(layout.is_column_major());
}

#[test]
fn packed_layout_rejects_empty_and_huge_images() {
    assert_eq!(PackedLayout::new(0, 2, 2, InterleavedLayoutOrder::RowMajor), Err(Error::ZeroChannels));
    assert_eq!(PackedLayout::new(3, 0, 2, InterleavedLayoutOrder::RowMajor), Err(Error::ZeroWidth));
    assert_eq!(PackedLayout::new(3, 2, 0, InterleavedLayoutOrder::RowMajor), Err(Error::ZeroHeight));
    assert_eq!(
        PackedLayout::new(usize::MAX, 2, 2, InterleavedLayoutOrder::RowMajor),
        Err(Error::LayoutTooLarge)
    );
}

#[test]
fn packed_layout_row_major_indices() {
    let layout = PackedLayout::new(3, 4, 2, InterleavedLayoutOrder::RowMajor).unwrap();
    assert_eq!(layout.channels(), 3);
    assert_eq!(layout.width(), 4);
    assert_eq!(layout.height(), 2);
    assert_eq!(layout.minimum_buffer_size(), 24);
    assert_eq!(layout.pixel_index_unchecked(0, 0), 0);
    assert_eq!(layout.pixel_index_unchecked(1, 0), 3);
    assert_eq!(layout.pixel_index_unchecked(3, 1), 21);
    assert_eq!(layout.component_index_unchecked(3, 1, 2), 23);
    assert_eq!(layout.pixel_range(2, 1), Ok(18..21));
    assert_eq!(layout.pixel_index(4, 0), Err(Error::PixelOutOfBounds));
    assert_eq!(layout.component_index(0, 0, 3), Err(Error::ChannelOutOfBounds));
    assert_eq!(layout.component_index(0, 2, 0), Err(Error::PixelOutOfBounds));
    assert_eq!(layout.component_index(1, 1, 1), Ok(16));
    assert!(layout.is_row_major());
    assert!(!layout.is_column_major());
    assert_eq!(layout.order(), InterleavedLayoutOrder::RowMajor);
    assert_eq!(layout.major_minor_sidelengths(), (4, 2));
}

#[test]
fn packed_layout_column_major_indices() {
    let layout = PackedLayout::new(2, 3, 4, InterleavedLayoutOrder::ColumnMajor).unwrap();
    assert_eq!(layout.minimum_buffer_size(), 24);
    assert_eq!(layout.pixel_index_unchecked(0, 1), 2);
    assert_eq!(layout.pixel_index_unchecked(1, 0), 8);
    assert_eq!(layout.pixel_index_unchecked(2, 3), 22);
    assert_eq!(layout.component_index_unchecked(2, 3, 1), 23);
    assert!(layout.is_column_major());
    assert_eq!(layout.major_minor_sidelengths(), (4, 3));
}

#[test]
fn packed_layout_components_fill_the_buffer_exactly_once() {
    for order in [InterleavedLayoutOrder::RowMajor, InterleavedLayoutOrder::ColumnMajor] {
        let layout = PackedLayout::new(3, 4, 5, order).unwrap();
        let mut seen = vec![false; layout.minimum_buffer_size()];
        for y in 0..5 {
            for x in 0..4 {
                for c in 0..3 {
                    let index = layout.component_index_unchecked(x, y, c);
                    assert!(index < seen.len());
                    assert!(!seen[index]);
                    seen[index] = true;
                }
            }
        }
        assert!(seen.iter().all(|s| *s));
    }
}

#[test]
fn loose_layout_order_compute() {
    assert_eq!(LooseLayoutOrder::compute(3, 8, 2, 1, 4, 2), Some(LooseLayoutOrder::ChannelRowColumn));
    assert_eq!(LooseLayoutOrder::compute(3, 8, 1, 4, 4, 2), Some(LooseLayoutOrder::ChannelColumnRow));
    assert_eq!(LooseLayoutOrder::compute(3, 2, 8, 1, 4, 2), Some(LooseLayoutOrder::RowChannelColumn));
    assert_eq!(LooseLayoutOrder::compute(3, 1, 8, 3, 4, 2), Some(LooseLayoutOrder::RowColumnChannel));
    assert_eq!(LooseLayoutOrder::compute(3, 4, 1, 12, 4, 2), Some(LooseLayoutOrder::ColumnChannelRow));
    assert_eq!(LooseLayoutOrder::compute(3, 1, 3, 12, 4, 4), Some(LooseLayoutOrder::ColumnRowChannel));
    assert_eq!(LooseLayoutOrder::compute(3, 1, 1, 1, 2, 2), None);
    assert_eq!(LooseLayoutOrder::compute(3, 0, 1, 1, 1, 1), None);
    // Pixels (0, 2) and (1, 0) would share sample 2.
    assert_eq!(LooseLayoutOrder::compute(1, 6, 2, 1, 2, 3), None);
    assert_eq!(
        LooseLayoutOrder::compute(1, 1, usize::MAX, 1, u32::MAX, 1),
        Some(LooseLayoutOrder::RowChannelColumn)
    );
}

#[test]
fn loose_layout_new_checks_in_order() {
    assert_eq!(LooseLayout::new(0, 2, 2, 8, 2, 1), Err(Error::ZeroChannels));
    assert_eq!(LooseLayout::new(3, 0, 2, 8, 2, 1), Err(Error::ZeroWidth));
    assert_eq!(LooseLayout::new(3, 2, 0, 8, 2, 1), Err(Error::ZeroHeight));
    assert_eq!(LooseLayout::new(3, 2, 2, 0, 2, 1), Err(Error::ZeroChannelStride));
    assert_eq!(LooseLayout::new(3, 2, 2, 8, 0, 1), Err(Error::ZeroXStride));
    assert_eq!(LooseLayout::new(3, 2, 2, 8, 2, 0), Err(Error::ZeroYStride));
    assert_eq!(LooseLayout::new(3, 2, 2, 1, 1, 1), Err(Error::InvalidStrides));
    assert_eq!(LooseLayout::new(1, 2, 3, 6, 2, 1), Err(Error::InvalidStrides));
    assert_eq!(LooseLayout::new(3, 2, 2, usize::MAX, 2, 1), Err(Error::LayoutTooLarge));
}

#[test]
fn loose_layout_accepts_the_packed_interleaved_layout() {
    let layout = LooseLayout::new(3, 4, 4, 1, 3, 12).unwrap();
    assert_eq!(layout.order(), LooseLayoutOrder::ColumnRowChannel);
    assert_eq!(layout.minimum_buffer_size(), 48);
    let mut seen = vec![false; 48];
    for y in 0..4 {
        for x in 0..4 {
            for c in 0..3 {
                let index = layout.component_index_unchecked(x, y, c);
                assert!(!seen[index]);
                seen[index] = true;
            }
        }
    }
}

#[test]
fn loose_layout_indices_and_size() {
    let layout = LooseLayout::new(3, 2, 4, 8, 4, 1).unwrap();
    assert_eq!(layout.channels(), 3);
    assert_eq!(layout.width(), 2);
    assert_eq!(layout.height(), 4);
    assert_eq!(layout.channel_stride(), 8);
    assert_eq!(layout.x_stride(), 4);
    assert_eq!(layout.y_stride(), 1);
    assert_eq!(layout.order(), LooseLayoutOrder::ChannelRowColumn);
    // (3 - 1) * 8 + (2 - 1) * 4 + (4 - 1) * 1 + 1
    assert_eq!(layout.minimum_buffer_size(), 24);
    assert_eq!(layout.component_index_unchecked(1, 3, 2), 23);
    assert_eq!(layout.component_index(1, 3, 3), Err(Error::ChannelOutOfBounds));
    assert_eq!(layout.component_index(2, 0, 0), Err(Error::PixelOutOfBounds));
}

#[test]
fn loose_layout_every_component_fits_the_minimum_buffer() {
    let layout = LooseLayout::new(1, 2, 1, 2, 2, 1).unwrap();
    let size = layout.minimum_buffer_size();
    for y in 0..1 {
        for x in 0..2 {
            assert!(layout.component_index_unchecked(x, y, 0) < size);
        }
    }
    assert_eq!(size, 3);
}

#[test]
fn loose_layout_from_packed_keeps_indices() {
    for order in [InterleavedLayoutOrder::RowMajor, InterleavedLayoutOrder::ColumnMajor] {
        let packed = PackedLayout::new(3, 4, 5, order).unwrap();
        let loose = LooseLayout::from(packed);
        assert_eq!(loose.channels(), 3);
        assert_eq!(loose.minimum_buffer_size(), packed.minimum_buffer_size());
        for y in 0..5 {
            for x in 0..4 {
                for c in 0..3 {
                    assert_eq!(
                        loose.component_index_unchecked(x, y, c),
                        packed.component_index_unchecked(x, y, c)
                    );
                }
            }
        }
    }
}

#[test]
fn shrink_channels_keeps_leading_channels() {
    let layout = LooseLayout::new(3, 2, 4, 8, 4, 1).unwrap();
    let shrunk = layout.shrink_channels(2).unwrap();
    assert_eq!(shrunk.channels(), 2);
    assert_eq!(shrunk.minimum_buffer_size(), 16);
    assert_eq!((shrunk.channel_stride(), shrunk.x_stride(), shrunk.y_stride()), (8, 4, 1));
    assert_eq!(shrunk.component_index_unchecked(1, 3, 1), layout.component_index_unchecked(1, 3, 1));
    assert_eq!(layout.shrink_channels(4), Err(Error::TooManyChannels));

    let packed = PackedLayout::new(4, 2, 2, InterleavedLayoutOrder::RowMajor).unwrap();
    let rgb = packed.shrink_channels(3).unwrap();
    assert_eq!(rgb.channels(), 3);
    assert_eq!((rgb.channel_stride(), rgb.x_stride(), rgb.y_stride()), (1, 4, 8));
    assert_eq!(rgb.component_index_unchecked(1, 1, 2), 14);
    assert_eq!(packed.shrink_channels(5), Err(Error::TooManyChannels));
}

#[test]
fn channel_separated_layout() {
    assert_eq!(ChannelSeparatedLayout::new(0, 1, 1, 1, 1), Err(Error::ZeroWidth));
    assert_eq!(ChannelSeparatedLayout::new(1, 0, 1, 1, 1), Err(Error::ZeroHeight));
    assert_eq!(ChannelSeparatedLayout::new(2, 4, 0, 2, 1), Err(Error::ZeroChannelStride));
    assert_eq!(ChannelSeparatedLayout::new(2, 4, 8, 0, 1), Err(Error::ZeroXStride));
    assert_eq!(ChannelSeparatedLayout::new(2, 4, 8, 2, 0), Err(Error::ZeroYStride));
    assert_eq!(ChannelSeparatedLayout::new(2, 2, 1, 1, 1), Err(Error::InvalidStrides));
    // Pixels (0, 2) and (1, 0) would start at the same sample.
    assert_eq!(ChannelSeparatedLayout::new(2, 3, 6, 2, 1), Err(Error::InvalidStrides));
    assert_eq!(
        ChannelSeparatedLayoutOrder::compute(1, 4, 16, 4, 2),
        Some(ChannelSeparatedLayoutOrder::ColumnRowChannel)
    );
    assert_eq!(ChannelSeparatedLayoutOrder::compute(1, 4, 8, 4, 2), None);
    // With one channel the two orders agree; with three the loose one needs room for every channel.
    assert_eq!(
        ChannelSeparatedLayoutOrder::compute(1, 2, 4, 2, 1),
        Some(ChannelSeparatedLayoutOrder::ColumnRowChannel)
    );
    assert_eq!(LooseLayoutOrder::compute(1, 1, 2, 4, 2, 1), Some(LooseLayoutOrder::ColumnRowChannel));
    assert_eq!(LooseLayoutOrder::compute(3, 1, 2, 4, 2, 1), None);
    let layout = ChannelSeparatedLayout::new(2, 4, 8, 4, 1).unwrap();
    assert_eq!(layout.width(), 2);
    assert_eq!(layout.height(), 4);
    assert_eq!(layout.channel_stride(), 8);
    assert_eq!(layout.x_stride(), 4);
    assert_eq!(layout.y_stride(), 1);
    assert_eq!(layout.minimum_buffer_size(3), 24);
    assert_eq!(layout.color_channel_index(1, 3, 2), 23);
}

#[test]
fn interleaved_layout() {
    let layout = InterleavedLayout { width: 4, height: 2, stride_x: 1, stride_y: 4 };
    assert_eq!(layout.width(), 4);
    assert_eq!(layout.height(), 2);
    assert_eq!(layout.minimum_buffer_size(3), 48);
    assert_eq!(layout.minimum_buffer_size(0), 0);
    assert_eq!(layout.pixel_index(3, 1), 7);
    assert_eq!(layout.color_channel_index(3, 1, 2), 9);
}
