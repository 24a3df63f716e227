use vstd::prelude::*;

verus! {

/// The reasons an operation of this library can be refused.
#[derive(Debug, Clone, Copy, PartialEq, Eq, Structural)]
pub enum Error {
    /// A color channel index is not below the number of channels.
    ChannelOutOfBounds,
    /// Pixel x y coordinates lie outside the image.
    PixelOutOfBounds,
    /// A layout was asked for with zero color channels.
    ZeroChannels,
    /// A layout was asked for with zero width.
    ZeroWidth,
    /// A layout was asked for with zero height.
    ZeroHeight,
    /// A layout was asked for with a channel stride of zero.
    ZeroChannelStride,
    /// A layout was asked for with an x stride of zero.
    ZeroXStride,
    /// A layout was asked for with a y stride of zero.
    ZeroYStride,
    /// The strides match none of the supported storage orders.
    InvalidStrides,
    /// The samples addressed by a layout do not fit in the address space.
    LayoutTooLarge,
    /// A layout cannot be shrunk to more channels than it has.
    TooManyChannels,
    /// The layout has another number of channels than the color type.
    WrongChannelCount,
    /// The buffer is too small to hold every sample that the layout addresses.
    BufferTooSmall,
    /// Two images that must have the same size do not.
    SizeMismatch,
    /// A slice does not have as many elements as the pixel has channels.
    SliceLengthMismatch,
    /// An interleaved layout is not tightly packed.
    NotPacked,
}

impl Error {
    /// A human readable description of the error.
    pub fn message(&self) -> (text: &'static str)
        ensures
            *self == Error::ChannelOutOfBounds ==> text@ == "Channel index out of bounds"@,
            *self == Error::PixelOutOfBounds ==> text@ == "Pixel x y coordinates out of bounds"@,
            *self == Error::ZeroChannels ==> text@ == "Number of channels cannot be zero"@,
            *self == Error::ZeroWidth ==> text@ == "Width cannot be zero"@,
            *self == Error::ZeroHeight ==> text@ == "Height cannot be zero"@,
            *self == Error::ZeroChannelStride ==> text@ == "Channel stride cannot be zero"@,
            *self == Error::ZeroXStride ==> text@ == "X stride cannot be zero"@,
            *self == Error::ZeroYStride ==> text@ == "Y stride cannot be zero"@,
            *self == Error::InvalidStrides ==> text@ == "Invalid strides"@,
            *self == Error::LayoutTooLarge ==> text@ == "The layout addresses more samples than fit in memory"@,
            *self == Error::TooManyChannels ==> text@ == "Cannot shrink to more channels"@,
            *self == Error::WrongChannelCount ==> text@ == "The given layout has the wrong number of channels for the given color type."@,
            *self == Error::BufferTooSmall ==> text@ == "The given buffer is too small to fit the entire image as dictated by the given layout."@,
            *self == Error::SizeMismatch ==> text@ == "Image sizes do not match"@,
            *self == Error::SliceLengthMismatch ==> text@ == "Given slice doesn't match the number of channels for the pixel type"@,
            *self == Error::NotPacked ==> text@ == "The interleaved layout is not packed"@,
    {
        match self {
            Error::ChannelOutOfBounds => "Channel index out of bounds",
            Error::PixelOutOfBounds => "Pixel x y coordinates out of bounds",
            Error::ZeroChannels => "Number of channels cannot be zero",
            Error::ZeroWidth => "Width cannot be zero",
            Error::ZeroHeight => "Height cannot be zero",
            Error::ZeroChannelStride => "Channel stride cannot be zero",
            Error::ZeroXStride => "X stride cannot be zero",
            Error::ZeroYStride => "Y stride cannot be zero",
            Error::InvalidStrides => "Invalid strides",
            Error::LayoutTooLarge => "The layout addresses more samples than fit in memory",
            Error::TooManyChannels => "Cannot shrink to more channels",
            Error::WrongChannelCount => "The given layout has the wrong number of channels for the given color type.",
            Error::BufferTooSmall => "The given buffer is too small to fit the entire image as dictated by the given layout.",
            Error::SizeMismatch => "Image sizes do not match",
            Error::SliceLengthMismatch => "Given slice doesn't match the number of channels for the pixel type",
            Error::NotPacked => "The interleaved layout is not packed",
        }
    }
}

} // verus!
