//! Data that clients and loader processes exchange: pixel layouts, image and
//! frame descriptions, frame requests and the errors of a loader process.

use std::collections::BTreeMap;
use std::sync::Arc;
use vstd::prelude::*;

verus! {

/// Layout of one pixel in memory
///
/// The letters name the channels in the order in which they are stored, the
/// numbers their width in bits.
#[derive(Clone, Copy, Debug, PartialEq, Eq, Structural)]
pub enum MemoryFormat {
    B8g8r8a8Premultiplied,
    A8r8g8b8Premultiplied,
    R8g8b8a8Premultiplied,
    B8g8r8a8,
    A8r8g8b8,
    R8g8b8a8,
    A8b8g8r8,
    R8g8b8,
    B8g8r8,
    R16g16b16,
    R16g16b16a16Premultiplied,
    R16g16b16a16,
    R16g16b16Float,
    R16g16b16a16Float,
    R32g32b32Float,
    R32g32b32a32FloatPremultiplied,
    R32g32b32a32Float,
    G8a8Premultiplied,
    G8a8,
    G8,
    G16a16Premultiplied,
    G16a16,
    G16,
}

impl MemoryFormat {
    /// Whether the only color channel is a gray value
    pub open spec fn is_gray(self) -> bool {
        ||| self is G8a8Premultiplied
        ||| self is G8a8
        ||| self is G8
        ||| self is G16a16Premultiplied
        ||| self is G16a16
        ||| self is G16
    }

    /// Whether the layout has no alpha channel
    pub open spec fn is_opaque(self) -> bool {
        ||| self is R8g8b8
        ||| self is B8g8r8
        ||| self is R16g16b16
        ||| self is R16g16b16Float
        ||| self is R32g32b32Float
        ||| self is G8
        ||| self is G16
    }

    /// Whether the color channels are already multiplied with alpha
    pub open spec fn is_premultiplied(self) -> bool {
        ||| self is B8g8r8a8Premultiplied
        ||| self is A8r8g8b8Premultiplied
        ||| self is R8g8b8a8Premultiplied
        ||| self is R16g16b16a16Premultiplied
        ||| self is R32g32b32a32FloatPremultiplied
        ||| self is G8a8Premultiplied
        ||| self is G16a16Premultiplied
    }

    /// Whether the channels are floating-point numbers
    pub open spec fn is_float(self) -> bool {
        ||| self is R16g16b16Float
        ||| self is R16g16b16a16Float
        ||| self is R32g32b32Float
        ||| self is R32g32b32a32FloatPremultiplied
        ||| self is R32g32b32a32Float
    }

    /// Number of bytes that one channel takes
    pub open spec fn channel_bytes(self) -> nat {
        match self {
            MemoryFormat::B8g8r8a8Premultiplied
            | MemoryFormat::A8r8g8b8Premultiplied
            | MemoryFormat::R8g8b8a8Premultiplied
            | MemoryFormat::B8g8r8a8
            | MemoryFormat::A8r8g8b8
            | MemoryFormat::R8g8b8a8
            | MemoryFormat::A8b8g8r8
            | MemoryFormat::R8g8b8
            | MemoryFormat::B8g8r8
            | MemoryFormat::G8a8Premultiplied
            | MemoryFormat::G8a8
            | MemoryFormat::G8 => 1,
            MemoryFormat::R32g32b32Float
            | MemoryFormat::R32g32b32a32FloatPremultiplied
            | MemoryFormat::R32g32b32a32Float => 4,
            _ => 2,
        }
    }

    /// Number of color channels, plus one for an alpha channel
    pub open spec fn channel_count(self) -> nat {
        let colors: nat = if self.is_gray() {
            1
        } else {
            3
        };
        if self.is_opaque() {
            colors
        } else {
            colors + 1
        }
    }

    /// Number of bytes that one pixel takes
    pub open spec fn pixel_bytes(self) -> nat {
        self.channel_bytes() * self.channel_count()
    }

    /// Number of channels, including the alpha channel
    pub fn n_channels(self) -> (r: u8)
        ensures
            r == self.channel_count(),
    {
        match self {
            MemoryFormat::B8g8r8a8Premultiplied
            | MemoryFormat::A8r8g8b8Premultiplied
            | MemoryFormat::R8g8b8a8Premultiplied
            | MemoryFormat::B8g8r8a8
            | MemoryFormat::A8r8g8b8
            | MemoryFormat::R8g8b8a8
            | MemoryFormat::A8b8g8r8
            | MemoryFormat::R16g16b16a16Premultiplied
            | MemoryFormat::R16g16b16a16
            | MemoryFormat::R16g16b16a16Float
            | MemoryFormat::R32g32b32a32FloatPremultiplied
            | MemoryFormat::R32g32b32a32Float => 4,
            MemoryFormat::R8g8b8
            | MemoryFormat::B8g8r8
            | MemoryFormat::R16g16b16
            | MemoryFormat::R16g16b16Float
            | MemoryFormat::R32g32b32Float => 3,
            MemoryFormat::G8a8Premultiplied
            | MemoryFormat::G8a8
            | MemoryFormat::G16a16Premultiplied
            | MemoryFormat::G16a16 => 2,
            MemoryFormat::G8 | MemoryFormat::G16 => 1,
        }
    }

    /// Number of bytes that one pixel takes
    pub fn n_bytes(self) -> (r: u8)
        ensures
            r == self.pixel_bytes(),
    {
        let channel_bytes: u8 = match self {
            MemoryFormat::B8g8r8a8Premultiplied
            | MemoryFormat::A8r8g8b8Premultiplied
            | MemoryFormat::R8g8b8a8Premultiplied
            | MemoryFormat::B8g8r8a8
            | MemoryFormat::A8r8g8b8
            | MemoryFormat::R8g8b8a8
            | MemoryFormat::A8b8g8r8
            | MemoryFormat::R8g8b8
            | MemoryFormat::B8g8r8
            | MemoryFormat::G8a8Premultiplied
            | MemoryFormat::G8a8
            | MemoryFormat::G8 => 1,
            MemoryFormat::R32g32b32Float
            | MemoryFormat::R32g32b32a32FloatPremultiplied
            | MemoryFormat::R32g32b32a32Float => 4,
            _ => 2,
        };
        channel_bytes * self.n_channels()
    }
}

/// Set of memory formats that a client accepts
pub struct MemoryFormatSelection {
    pub formats: Vec<MemoryFormat>,
}

impl View for MemoryFormatSelection {
    type V = Set<MemoryFormat>;

    open spec fn view(&self) -> Set<MemoryFormat> {
        Set::new(|format: MemoryFormat| self.formats@.contains(format))
    }
}

impl MemoryFormatSelection {
    /// Every memory format
    pub fn all() -> (r: Self)
        ensures
            forall|format: MemoryFormat| #[trigger] r@.contains(format),
    {
        let r = MemoryFormatSelection {
            formats: vec![
                MemoryFormat::B8g8r8a8Premultiplied,
                MemoryFormat::A8r8g8b8Premultiplied,
                MemoryFormat::R8g8b8a8Premultiplied,
                MemoryFormat::B8g8r8a8,
                MemoryFormat::A8r8g8b8,
                MemoryFormat::R8g8b8a8,
                MemoryFormat::A8b8g8r8,
                MemoryFormat::R8g8b8,
                MemoryFormat::B8g8r8,
                MemoryFormat::R16g16b16,
                MemoryFormat::R16g16b16a16Premultiplied,
                MemoryFormat::R16g16b16a16,
                MemoryFormat::R16g16b16Float,
                MemoryFormat::R16g16b16a16Float,
                MemoryFormat::R32g32b32Float,
                MemoryFormat::R32g32b32a32FloatPremultiplied,
                MemoryFormat::R32g32b32a32Float,
                MemoryFormat::G8a8Premultiplied,
                MemoryFormat::G8a8,
                MemoryFormat::G8,
                MemoryFormat::G16a16Premultiplied,
                MemoryFormat::G16a16,
                MemoryFormat::G16,
            ],
        };
        assert forall|format: MemoryFormat| #[trigger] r@.contains(format) by {
            let s = r.formats@;
            match format {
                MemoryFormat::B8g8r8a8Premultiplied => assert(s[0] == format),
                MemoryFormat::A8r8g8b8Premultiplied => assert(s[1] == format),
                MemoryFormat::R8g8b8a8Premultiplied => assert(s[2] == format),
                MemoryFormat::B8g8r8a8 => assert(s[3] == format),
                MemoryFormat::A8r8g8b8 => assert(s[4] == format),
                MemoryFormat::R8g8b8a8 => assert(s[5] == format),
                MemoryFormat::A8b8g8r8 => assert(s[6] == format),
                MemoryFormat::R8g8b8 => assert(s[7] == format),
                MemoryFormat::B8g8r8 => assert(s[8] == format),
                MemoryFormat::R16g16b16 => assert(s[9] == format),
                MemoryFormat::R16g16b16a16Premultiplied => assert(s[10] == format),
                MemoryFormat::R16g16b16a16 => assert(s[11] == format),
                MemoryFormat::R16g16b16Float => assert(s[12] == format),
                MemoryFormat::R16g16b16a16Float => assert(s[13] == format),
                MemoryFormat::R32g32b32Float => assert(s[14] == format),
                MemoryFormat::R32g32b32a32FloatPremultiplied => assert(s[15] == format),
                MemoryFormat::R32g32b32a32Float => assert(s[16] == format),
                MemoryFormat::G8a8Premultiplied => assert(s[17] == format),
                MemoryFormat::G8a8 => assert(s[18] == format),
                MemoryFormat::G8 => assert(s[19] == format),
                MemoryFormat::G16a16Premultiplied => assert(s[20] == format),
                MemoryFormat::G16a16 => assert(s[21] == format),
                MemoryFormat::G16 => assert(s[22] == format),
            }
        }
        r
    }
}

/// Binary data that can be shared between processes
///
/// `None` stands for shared memory that cannot be read.
pub struct BinaryData {
    pub memory: Arc<Option<Vec<u8>>>,
}

impl View for BinaryData {
    type V = Option<Seq<u8>>;

    open spec fn view(&self) -> Option<Seq<u8>> {
        match *self.memory {
            Some(data) => Some(data@),
            None => None,
        }
    }
}

impl Clone for BinaryData {
    /// Another handle to the same data
    fn clone(&self) -> (r: Self)
        ensures
            r == *self,
    {
        BinaryData { memory: self.memory.clone() }
    }
}

impl BinaryData {
    /// Share `data`
    pub fn from_data(data: Vec<u8>) -> (r: Self)
        ensures
            r@ == Some(data@),
    {
        BinaryData { memory: Arc::new(Some(data)) }
    }

    /// The complete data, or `None` if it cannot be read
    pub fn get_full(&self) -> (r: Option<Vec<u8>>)
        ensures
            match r {
                Some(data) => self@ == Some(data@),
                None => self@ is None,
            },
    {
        match &*self.memory {
            Some(data) => {
                let copy = data.clone();
                assert(copy@ =~= data@);
                Some(copy)
            },
            None => None,
        }
    }
}

/// Media type of an image, for example `image/png`
pub struct MimeType(pub String);

impl View for MimeType {
    type V = Seq<char>;

    open spec fn view(&self) -> Seq<char> {
        self.0@
    }
}

impl Clone for MimeType {
    fn clone(&self) -> (r: Self)
        ensures
            r == *self,
    {
        MimeType(self.0.clone())
    }
}

/// Description of an image that a loader process sends
pub struct ImageDetails {
    pub width: u32,
    pub height: u32,
    /// Width and height in inch, each as the bit pattern of a 64-bit
    /// floating-point number
    pub dimensions_inch: Option<(u64, u64)>,
    pub info_format_name: Option<String>,
    pub info_dimensions_text: Option<String>,
    pub metadata_exif: Option<BinaryData>,
    pub metadata_orientation: Option<u16>,
    pub metadata_xmp: Option<BinaryData>,
    pub metadata_key_value: Option<BTreeMap<String, String>>,
    pub transformation_ignore_exif: bool,
}

impl ImageDetails {
    /// An image of the given size with nothing else known of it
    pub open spec fn of_size(width: u32, height: u32) -> ImageDetails {
        ImageDetails {
            width,
            height,
            dimensions_inch: None,
            info_format_name: None,
            info_dimensions_text: None,
            metadata_exif: None,
            metadata_orientation: None,
            metadata_xmp: None,
            metadata_key_value: None,
            transformation_ignore_exif: false,
        }
    }

    pub fn new(width: u32, height: u32) -> (r: Self)
        ensures
            r == ImageDetails::of_size(width, height),
    {
        ImageDetails {
            width,
            height,
            dimensions_inch: None,
            info_format_name: None,
            info_dimensions_text: None,
            metadata_exif: None,
            metadata_orientation: None,
            metadata_xmp: None,
            metadata_key_value: None,
            transformation_ignore_exif: false,
        }
    }
}

/// Which frame a loader process is asked for
#[derive(Clone, Copy, Debug, PartialEq, Eq)]
pub struct FrameRequest {
    /// Width and height to scale to
    pub scale: Option<(u32, u32)>,
    /// Horizontal and vertical offset, width and height of the wanted part
    pub clip: Option<(u32, u32, u32, u32)>,
}

impl Default for FrameRequest {
    /// The next frame, as it is stored
    fn default() -> (r: Self)
        ensures
            r == (FrameRequest { scale: None, clip: None }),
    {
        FrameRequest { scale: None, clip: None }
    }
}

/// Description of a frame that a loader process sends
pub struct FrameDetails {
    pub color_icc_profile: Option<BinaryData>,
    pub color_cicp: Option<[u8; 4]>,
    pub info_alpha_channel: Option<bool>,
    pub info_bit_depth: Option<u8>,
    pub info_grayscale: Option<bool>,
    pub n_frame: Option<u64>,
}

impl Default for FrameDetails {
    /// Nothing is known
    fn default() -> (r: Self)
        ensures
            r == FrameDetails::nothing(),
    {
        FrameDetails {
            color_icc_profile: None,
            color_cicp: None,
            info_alpha_channel: None,
            info_bit_depth: None,
            info_grayscale: None,
            n_frame: None,
        }
    }
}

impl FrameDetails {
    /// A description that says nothing
    pub open spec fn nothing() -> FrameDetails {
        FrameDetails {
            color_icc_profile: None,
            color_cicp: None,
            info_alpha_channel: None,
            info_bit_depth: None,
            info_grayscale: None,
            n_frame: None,
        }
    }
}

/// Frame that a loader process sends
pub struct Frame {
    pub width: u32,
    pub height: u32,
    /// Line stride in bytes
    pub stride: u32,
    pub memory_format: MemoryFormat,
    pub texture: BinaryData,
    /// Time to show the frame, in microseconds
    pub delay: Option<u64>,
    pub details: FrameDetails,
}

impl Frame {
    /// A frame without padding between its lines and with nothing else known
    /// of it
    ///
    /// There is none if a line takes more bytes than the stride can tell.
    pub fn new(width: u32, height: u32, memory_format: MemoryFormat, texture: BinaryData) -> (r:
        Option<Self>)
        ensures
            match r {
                Some(frame) => {
                    &&& frame.stride == width * memory_format.pixel_bytes()
                    &&& frame.width == width
                    &&& frame.height == height
                    &&& frame.memory_format == memory_format
                    &&& frame.texture == texture
                    &&& frame.delay is None
                    &&& frame.details == FrameDetails::nothing()
                },
                None => width * memory_format.pixel_bytes() > u32::MAX,
            },
    {
        match width.checked_mul(memory_format.n_bytes() as u32) {
            Some(stride) => Some(
                Frame {
                    width,
                    height,
                    stride,
                    memory_format,
                    texture,
                    delay: None,
                    details: FrameDetails::default(),
                },
            ),
            None => None,
        }
    }
}

/// Channels of decoded pixels and their width
#[derive(Clone, Copy, Debug, PartialEq, Eq, Structural)]
pub enum ColorType {
    L8,
    La8,
    Rgb8,
    Rgba8,
    L16,
    La16,
    Rgb16,
    Rgba16,
    Rgb32F,
    Rgba32F,
}

impl ColorType {
    /// The layout of such pixels in memory
    pub open spec fn layout(self) -> MemoryFormat {
        match self {
            ColorType::L8 => MemoryFormat::G8,
            ColorType::La8 => MemoryFormat::G8a8,
            ColorType::Rgb8 => MemoryFormat::R8g8b8,
            ColorType::Rgba8 => MemoryFormat::R8g8b8a8,
            ColorType::L16 => MemoryFormat::G16,
            ColorType::La16 => MemoryFormat::G16a16,
            ColorType::Rgb16 => MemoryFormat::R16g16b16,
            ColorType::Rgba16 => MemoryFormat::R16g16b16a16,
            ColorType::Rgb32F => MemoryFormat::R32g32b32Float,
            ColorType::Rgba32F => MemoryFormat::R32g32b32a32Float,
        }
    }

    /// The layout of such pixels in memory
    pub fn memory_format(self) -> (r: MemoryFormat)
        ensures
            r == self.layout(),
    {
        match self {
            ColorType::L8 => MemoryFormat::G8,
            ColorType::La8 => MemoryFormat::G8a8,
            ColorType::Rgb8 => MemoryFormat::R8g8b8,
            ColorType::Rgba8 => MemoryFormat::R8g8b8a8,
            ColorType::L16 => MemoryFormat::G16,
            ColorType::La16 => MemoryFormat::G16a16,
            ColorType::Rgb16 => MemoryFormat::R16g16b16,
            ColorType::Rgba16 => MemoryFormat::R16g16b16a16,
            ColorType::Rgb32F => MemoryFormat::R32g32b32Float,
            ColorType::Rgba32F => MemoryFormat::R32g32b32a32Float,
        }
    }

    /// Whether there is an alpha channel, whether the colors are gray values,
    /// and the width of a channel in bits
    pub fn channel_details(self) -> (r: (bool, bool, u8))
        ensures
            r.0 == !self.layout().is_opaque(),
            r.1 == self.layout().is_gray(),
            r.2 == 8 * self.layout().channel_bytes(),
    {
        match self {
            ColorType::L8 => (false, true, 8),
            ColorType::La8 => (true, true, 8),
            ColorType::Rgb8 => (false, false, 8),
            ColorType::Rgba8 => (true, false, 8),
            ColorType::L16 => (false, true, 16),
            ColorType::La16 => (true, true, 16),
            ColorType::Rgb16 => (false, false, 16),
            ColorType::Rgba16 => (true, false, 16),
            ColorType::Rgb32F => (false, false, 32),
            ColorType::Rgba32F => (true, false, 32),
        }
    }
}

/// What a loader process was doing when an error came up
#[derive(Clone, Copy, Debug, PartialEq, Eq, Structural)]
pub enum Operation {
    /// Reading the description of the image
    ReadHeader,
    /// Decoding the image data
    Decode,
    /// Finding out which channels the decoded pixels have
    ChannelDetails,
    /// Looking for the pixels of a rendered image
    PixelData,
    /// Copying the pixels into the texture
    FillTexture,
    /// Describing the frame
    CreateFrame,
}

/// Error of a loader process
#[derive(Clone, Copy, Debug, PartialEq, Eq, Structural)]
pub enum ProcessError {
    /// The image is broken or not supported
    ExpectedError(Operation),
    /// The loader process contradicts itself
    InternalError(Operation),
}

/// What the names of the memory formats say: the number of channels, the bytes of
/// a channel, and whether there are only gray values, an alpha channel, colors
/// that are multiplied with alpha, and floating-point numbers. A pixel takes the
/// bytes of all its channels.
pub proof fn memory_formats_are_what_they_are_called(format: MemoryFormat)
    ensures
        (
            format.channel_count(),
            format.channel_bytes(),
            format.is_gray(),
            !format.is_opaque(),
            format.is_premultiplied(),
            format.is_float(),
        ) == match format {
            MemoryFormat::B8g8r8a8Premultiplied => (4nat, 1nat, false, true, true, false),
            MemoryFormat::A8r8g8b8Premultiplied => (4nat, 1nat, false, true, true, false),
            MemoryFormat::R8g8b8a8Premultiplied => (4nat, 1nat, false, true, true, false),
            MemoryFormat::B8g8r8a8 => (4nat, 1nat, false, true, false, false),
            MemoryFormat::A8r8g8b8 => (4nat, 1nat, false, true, false, false),
            MemoryFormat::R8g8b8a8 => (4nat, 1nat, false, true, false, false),
            MemoryFormat::A8b8g8r8 => (4nat, 1nat, false, true, false, false),
            MemoryFormat::R8g8b8 => (3nat, 1nat, false, false, false, false),
            MemoryFormat::B8g8r8 => (3nat, 1nat, false, false, false, false),
            MemoryFormat::R16g16b16 => (3nat, 2nat, false, false, false, false),
            MemoryFormat::R16g16b16a16Premultiplied => (4nat, 2nat, false, true, true, false),
            MemoryFormat::R16g16b16a16 => (4nat, 2nat, false, true, false, false),
            MemoryFormat::R16g16b16Float => (3nat, 2nat, false, false, false, true),
            MemoryFormat::R16g16b16a16Float => (4nat, 2nat, false, true, false, true),
            MemoryFormat::R32g32b32Float => (3nat, 4nat, false, false, false, true),
            MemoryFormat::R32g32b32a32FloatPremultiplied => (4nat, 4nat, false, true, true, true),
            MemoryFormat::R32g32b32a32Float => (4nat, 4nat, false, true, false, true),
            MemoryFormat::G8a8Premultiplied => (2nat, 1nat, true, true, true, false),
            MemoryFormat::G8a8 => (2nat, 1nat, true, true, false, false),
            MemoryFormat::G8 => (1nat, 1nat, true, false, false, false),
            MemoryFormat::G16a16Premultiplied => (2nat, 2nat, true, true, true, false),
            MemoryFormat::G16a16 => (2nat, 2nat, true, true, false, false),
            MemoryFormat::G16 => (1nat, 2nat, true, false, false, false),
        },
        format.pixel_bytes() == format.channel_bytes() * format.channel_count(),
{
}

/// Decoded pixels are laid out with their own channels, in the order red, green,
/// blue, alpha, and the width of their own channels.
pub proof fn color_types_are_laid_out_as_they_are_called(color: ColorType)
    ensures
        color.layout() == match color {
            ColorType::L8 => MemoryFormat::G8,
            ColorType::La8 => MemoryFormat::G8a8,
            ColorType::Rgb8 => MemoryFormat::R8g8b8,
            ColorType::Rgba8 => MemoryFormat::R8g8b8a8,
            ColorType::L16 => MemoryFormat::G16,
            ColorType::La16 => MemoryFormat::G16a16,
            ColorType::Rgb16 => MemoryFormat::R16g16b16,
            ColorType::Rgba16 => MemoryFormat::R16g16b16a16,
            ColorType::Rgb32F => MemoryFormat::R32g32b32Float,
            ColorType::Rgba32F => MemoryFormat::R32g32b32a32Float,
        },
{
}

/// Of a new image nothing is known but its size, and of a new frame nothing that
/// goes beyond its pixels.
pub proof fn nothing_is_known_at_first(width: u32, height: u32)
    ensures
        ({
            let details = ImageDetails::of_size(width, height);
            &&& details.width == width
            &&& details.height == height
            &&& details.dimensions_inch is None
            &&& details.info_format_name is None
            &&& details.info_dimensions_text is None
            &&& details.metadata_exif is None
            &&& details.metadata_orientation is None
            &&& details.metadata_xmp is None
            &&& details.metadata_key_value is None
            &&& !details.transformation_ignore_exif
        }),
        ({
            let details = FrameDetails::nothing();
            &&& details.color_icc_profile is None
            &&& details.color_cicp is None
            &&& details.info_alpha_channel is None
            &&& details.info_bit_depth is None
            &&& details.info_grayscale is None
            &&& details.n_frame is None
        }),
{
}

/// Shared data are the bytes in the shared memory.
pub proof fn shared_data_are_in_memory(data: BinaryData)
    ensures
        match *data.memory {
            Some(bytes) => data@ == Some(bytes@),
            None => data@ is None,
        },
{
}

/// A selection has exactly the memory formats in its list.
pub proof fn selection_has_listed_formats(selection: MemoryFormatSelection, format: MemoryFormat)
    ensures
        selection@.contains(format) <==> exists|i: int|
            0 <= i < selection.formats@.len() && #[trigger] selection.formats@[i] == format,
{
}

/// A media type is its text.
pub proof fn media_type_is_its_text(mime_type: MimeType)
    ensures
        mime_type@ == mime_type.0@,
{
}

} // verus!
