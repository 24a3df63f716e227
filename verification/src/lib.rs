//! Interoperability between image buffers, pixel layouts and color types.

pub mod color;
pub mod error;
pub mod form;
pub mod generic_color;
pub mod image;
pub mod iter;
pub mod layout;
pub mod pixel;
pub mod scalar_bytes;
pub mod traits;
pub mod util;

pub use color::formats;
pub use color::spaces;
pub use color::{AssumeRGB, AssumedLinear, AssumedSrgb, GenericColor};
pub use error::Error;
pub use image::interleaved::{InterleavedLayout, InterleavedLayoutOrder};
pub use image::loose::{LooseLayout, LooseLayoutOrder};
pub use image::packed::PackedLayout;
pub use image::planar::{ChannelSeparatedLayout, ChannelSeparatedLayoutOrder};
pub use image::GenericImage;
pub use traits::{
    ChannelShrinkable, Channels, Color, ColorComponent, ColorFormat, ColorSpace, ConvertColorFrom,
    ConvertColorTo, ConvertFormatFrom, ConvertImage, Croppable, ImageIter, ImageIterMut, ImageLayout,
    ImageView, ImageViewMut, InterleavedImageLayout, PixelView, PixelViewMut, ScalarPrimitive,
    convert_samples,
};
