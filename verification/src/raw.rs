//! Loader for raw images of cameras

use crate::utils::{BinaryData, Frame, ImageDetails, MemoryFormat, Operation, ProcessError};
use libopenraw::tiff::exif::PhotometricInterpretation;
use libopenraw::{Bitmap, CfaPattern, DataType, RawImage, RenderingOptions};
use vstd::prelude::*;

verus! {

#[verifier::external_type_specification]
#[verifier::external_body]
pub struct ExLibopenrawError(libopenraw::Error);

#[verifier::external_type_specification]
pub struct ExPhotometricInterpretation(PhotometricInterpretation);

/// Value of a metadata entry
pub enum MetadataValue {
    Bytes(Vec<u8>),
    /// Anything else, such as numbers or text
    Other,
}

/// What a raw file tells about the image in it
pub struct RawHeader {
    pub width: u32,
    pub height: u32,
    /// The metadata entry that was asked for, if there is one
    pub metadata: Option<MetadataValue>,
}

/// [`RawHeader`] with the metadata as mathematical values
pub struct RawHeaderView {
    pub width: u32,
    pub height: u32,
    /// The metadata entry that was asked for, if there is one, with its bytes
    /// if it consists of bytes
    pub metadata: Option<Option<Seq<u8>>>,
}

impl View for RawHeader {
    type V = RawHeaderView;

    open spec fn view(&self) -> RawHeaderView {
        RawHeaderView {
            width: self.width,
            height: self.height,
            metadata: match self.metadata {
                Some(MetadataValue::Bytes(bytes)) => Some(Some(bytes@)),
                Some(MetadataValue::Other) => Some(None),
                None => None,
            },
        }
    }
}

/// Key of the metadata entry that contains XMP data
pub const XMP_KEY: &'static str = "Exif.Image.ApplicationNotes";

/// Whether `details` say what `header` says
pub open spec fn describes(details: ImageDetails, header: RawHeaderView) -> bool {
    &&& details.info_format_name matches Some(name)
    &&& name@ == "RAW"@
    &&& match (header.metadata, details.metadata_xmp) {
        (Some(Some(bytes)), Some(xmp)) => xmp@ == Some(bytes),
        (Some(Some(_)), None) => false,
        (_, xmp) => xmp is None,
    }
    &&& details == (ImageDetails {
        info_format_name: details.info_format_name,
        metadata_xmp: details.metadata_xmp,
        ..ImageDetails::of_size(header.width, header.height)
    })
}

/// Describe the image in a raw file
pub fn image_info(header: RawHeader) -> (r: ImageDetails)
    ensures
        describes(r, header@),
        r.width == header.width,
        r.height == header.height,
        r.info_format_name matches Some(name) && name@ == "RAW"@,
        match header.metadata {
            Some(MetadataValue::Bytes(bytes)) => r.metadata_xmp matches Some(xmp) && xmp@ == Some(
                bytes@,
            ),
            _ => r.metadata_xmp is None,
        },
        r.metadata_exif is None,
        r.metadata_orientation is None,
        r.metadata_key_value is None,
        r.dimensions_inch is None,
        r.info_dimensions_text is None,
        !r.transformation_ignore_exif,
{
    let xmp = match header.metadata {
        Some(MetadataValue::Bytes(xmp)) => Some(xmp),
        _ => None,
    };

    let mut image_info = ImageDetails::new(header.width, header.height);
    image_info.info_format_name = Some("RAW".to_owned());
    image_info.metadata_xmp = match xmp {
        Some(xmp) => Some(BinaryData::from_data(xmp)),
        None => None,
    };
    image_info.transformation_ignore_exif = false;
    image_info
}

/// Color filter in front of a sensor, with the colors of the first four samples
#[derive(Clone, Copy, Debug, PartialEq, Eq, Structural)]
pub enum ColorFilter {
    Empty,
    Rggb,
    Gbrg,
    Bggr,
    Grbg,
}

/// A raw image whose colors are not corrected for the camera
pub struct RawData {
    pub width: u32,
    pub height: u32,
    pub samples: Vec<u16>,
    /// Value of the brightest samples
    pub white: u16,
    /// Value of the darkest samples
    pub black: u16,
    /// What the samples stand for
    pub photometric: PhotometricInterpretation,
    pub pattern: ColorFilter,
}

/// Whether there is room in memory for a buffer that is twice as large as so
/// many pixels, of three 64-bit numbers each
pub open spec fn fits_into_memory(n_pixels: int) -> bool {
    n_pixels <= isize::MAX / 48
}

/// Whether an image of the given size has the pixel in row and column 1000, or
/// has fewer rows or columns
///
/// That pixel is logged while the image is developed.
pub open spec fn has_logged_pixel(width: int, height: int, n_pixels: int) -> bool {
    width < 1000 || height < 1000 || 1000 * width + 1000 < n_pixels
}

impl RawData {
    /// Whether the pixels are interpolated from samples of different colors
    pub open spec fn is_interpolated(self) -> bool {
        self.photometric == PhotometricInterpretation::CFA && self.pattern != ColorFilter::Empty
    }

    /// Number of pixels of the developed image, if there is one
    ///
    /// Pixels at the border of a color filter are not interpolated.
    pub open spec fn n_pixels(self) -> int {
        if self.is_interpolated() {
            (self.width - 2) * (self.height - 2)
        } else {
            self.samples@.len() as int
        }
    }

    /// Size of the developed image, or `None` if it cannot be developed
    pub open spec fn developed_size(self) -> Option<(u32, u32)> {
        if self.is_interpolated() {
            Some(((self.width - 2) as u32, (self.height - 2) as u32))
        } else if self.photometric == PhotometricInterpretation::LinearRaw {
            Some((self.width, self.height))
        } else {
            None
        }
    }

    /// Whether the numbers that describe the image fit together
    ///
    /// An image with a color filter is larger than its border, and it has all
    /// the samples for its size if anything is left within the border.
    pub open spec fn is_consistent(self) -> bool {
        let n_samples = self.samples@.len() as int;
        &&& self.black <= self.white
        &&& fits_into_memory(n_samples)
        &&& has_logged_pixel(self.width as int, self.height as int, n_samples)
        &&& self.is_interpolated() ==> {
            &&& self.width >= 2
            &&& self.height >= 2
            &&& fits_into_memory(self.width * self.height)
            &&& self.width > 2 && self.height > 2 ==> self.width * self.height <= n_samples
            &&& has_logged_pixel(self.width - 2, self.height - 2, self.n_pixels())
        }
    }

    /// Whether no sample of a color filter is brighter than the darkest ones are
    pub open spec fn is_dark(self) -> bool {
        &&& self.is_interpolated()
        &&& self.black < self.white
        &&& forall|i: int|
            0 <= i < self.samples@.len() ==> #[trigger] self.samples@[i] <= self.black
    }

    fn interpolated(&self) -> (r: bool)
        ensures
            r == self.is_interpolated(),
    {
        match self.photometric {
            PhotometricInterpretation::CFA => self.pattern != ColorFilter::Empty,
            _ => false,
        }
    }

    /// Whether the numbers that describe the image fit together, so that it can
    /// be handed to [`render`]
    pub fn consistent(&self) -> (r: bool)
        ensures
            r == self.is_consistent(),
    {
        let width: u64 = self.width as u64;
        let height: u64 = self.height as u64;
        let n_samples: u64 = self.samples.len() as u64;
        if self.black > self.white || !fits(n_samples) || !logged_pixel(width, height, n_samples) {
            return false;
        }
        if !self.interpolated() {
            return true;
        }
        if width < 2 || height < 2 {
            return false;
        }
        let size: u64 = product(width, height);
        let n_pixels: u64 = product(width - 2, height - 2);
        fits(size) && (width == 2 || height == 2 || size <= n_samples) && logged_pixel(
            width - 2,
            height - 2,
            n_pixels,
        )
    }
}

fn fits(n_pixels: u64) -> (r: bool)
    ensures
        r == fits_into_memory(n_pixels as int),
{
    n_pixels <= isize::MAX as u64 / 48
}

fn logged_pixel(width: u64, height: u64, n_pixels: u64) -> (r: bool)
    requires
        width <= u32::MAX,
    ensures
        r == has_logged_pixel(width as int, height as int, n_pixels as int),
{
    width < 1000 || height < 1000 || 1000 * width + 1000 < n_pixels
}

fn product(width: u64, height: u64) -> (r: u64)
    requires
        width <= u32::MAX,
        height <= u32::MAX,
    ensures
        r == width * height,
{
    assert(width * height <= u64::MAX) by (nonlinear_arith)
        requires
            width <= u32::MAX,
            height <= u32::MAX,
    ;
    width * height
}

/// A developed image
pub struct RenderedImage {
    pub width: u32,
    pub height: u32,
    /// Number of bytes of the pixels
    pub data_size: usize,
    /// The pixels, if they consist of 16-bit samples
    pub data16: Option<Vec<u16>>,
    /// The pixels, if they consist of bytes
    pub data8: Option<Vec<u8>>,
}

/// The two bytes of a 16-bit number
pub open spec fn bytes_of(value: u16, big_endian: bool) -> Seq<u8> {
    let high = (value / 256) as u8;
    let low = (value % 256) as u8;
    if big_endian {
        seq![high, low]
    } else {
        seq![low, high]
    }
}

/// The bytes of 16-bit numbers one after the other
pub open spec fn samples_as_bytes(samples: Seq<u16>, big_endian: bool) -> Seq<u8> {
    Seq::new(2 * samples.len(), |i: int| bytes_of(samples[i / 2], big_endian)[i % 2])
}

impl RenderedImage {
    /// The bytes of the pixels, if there are pixels
    pub open spec fn pixels(self, big_endian: bool) -> Option<Seq<u8>> {
        match (self.data16, self.data8) {
            (Some(data16), _) => Some(samples_as_bytes(data16@, big_endian)),
            (None, Some(data8)) => Some(data8@),
            (None, None) => None,
        }
    }
}

/// `RawImage::rendered_image` with default options, for an image without color
/// matrices and linearization table. It succeeds for gray values and for color
/// filters, of which it cuts off the border, and the developed image has three
/// 16-bit samples per pixel. Color filters without light give samples of zero.
///
/// Nothing else is said of the values of the samples: they are computed with
/// floating-point functions whose precision is not specified.
#[verifier::external_body]
fn rendered_image(raw: &RawData) -> (r: Result<
    (u32, u32, usize, Option<Vec<u16>>),
    libopenraw::Error,
>)
    requires
        raw.is_consistent(),
    ensures
        match (raw.developed_size(), r) {
            (Some(size), Ok((width, height, data_size, Some(data16)))) => {
                &&& (width, height) == size
                &&& data16@.len() == 3 * raw.n_pixels()
                &&& data_size == 2 * data16@.len()
                &&& raw.is_dark() ==> forall|i: int|
                    0 <= i < data16@.len() ==> #[trigger] data16@[i] == 0
            },
            (None, Err(_)) => true,
            _ => false,
        },
{
    let pattern = match raw.pattern {
        ColorFilter::Empty => CfaPattern::Empty,
        ColorFilter::Rggb => CfaPattern::Rggb,
        ColorFilter::Gbrg => CfaPattern::Gbrg,
        ColorFilter::Bggr => CfaPattern::Bggr,
        ColorFilter::Grbg => CfaPattern::Grbg,
    };
    let data = raw.samples.clone();
    let mut raw_image = RawImage::with_data16(raw.width, raw.height, 16, DataType::Raw, data, pattern);
    raw_image.set_whites([raw.white; 4]);
    raw_image.set_blacks([raw.black; 4]);
    raw_image.set_photometric_interpretation(raw.photometric);
    let image = raw_image.rendered_image(&RenderingOptions::default())?;
    let data16 = image.data16().map(|data| data.to_vec());
    Ok((image.width(), image.height(), image.data_size(), data16))
}

/// `u16::to_ne_bytes`: the two bytes of a number in the order that the machine
/// stores them in
#[verifier::external_body]
fn to_ne_bytes(value: u16) -> (r: [u8; 2])
    ensures
        r@ == bytes_of(value, true) || r@ == bytes_of(value, false),
{
    value.to_ne_bytes()
}

/// Whether a machine that stores the number one as the given bytes stores the
/// high byte of a number first
fn is_big_endian(one: [u8; 2]) -> (r: bool)
    ensures
        r == (one@ == bytes_of(1, true)),
{
    assert(one[0] == 0 && one[1] == 1 ==> one@ =~= bytes_of(1, true));
    one[0] == 0 && one[1] == 1
}

/// Put the bytes of 16-bit numbers one after the other
fn to_bytes(samples: &Vec<u16>, big_endian: bool) -> (r: Vec<u8>)
    ensures
        r@ == samples_as_bytes(samples@, big_endian),
{
    let mut bytes: Vec<u8> = Vec::new();
    for i in 0..samples.len()
        invariant
            bytes@ == samples_as_bytes(samples@.take(i as int), big_endian),
    {
        let high = (samples[i] / 256) as u8;
        let low = (samples[i] % 256) as u8;
        let ghost before = bytes@;
        if big_endian {
            bytes.push(high);
            bytes.push(low);
        } else {
            bytes.push(low);
            bytes.push(high);
        }
        proof {
            let now = samples_as_bytes(samples@.take(i + 1), big_endian);
            assert(before.len() == 2 * i);
            assert forall|j: int| 0 <= j < bytes@.len() implies bytes@[j] == now[j] by {
                if j < 2 * i {
                    assert(before[j] == bytes_of(samples@[j / 2], big_endian)[j % 2]);
                } else {
                    assert(j / 2 == i);
                }
            }
            assert(bytes@ =~= now);
        }
    }
    assert(samples@.take(samples@.len() as int) =~= samples@);
    bytes
}

/// The frame for a developed image whose 16-bit samples are stored in the given
/// byte order
pub fn frame_from_rendered(image: RenderedImage, big_endian: bool) -> (r: Result<
    Frame,
    ProcessError,
>)
    ensures
        match (image.pixels(big_endian), r) {
            (None, Err(error)) => error == ProcessError::ExpectedError(Operation::PixelData),
            (Some(pixels), Err(error)) => if pixels.len() < image.data_size {
                error == ProcessError::InternalError(Operation::FillTexture)
            } else {
                &&& image.width * MemoryFormat::R16g16b16.pixel_bytes() > u32::MAX
                &&& error == ProcessError::InternalError(Operation::CreateFrame)
            },
            (Some(pixels), Ok(frame)) => {
                &&& pixels.len() >= image.data_size
                &&& frame.texture@ == Some(pixels.take(image.data_size as int))
                &&& frame.width == image.width
                &&& frame.height == image.height
                &&& frame.stride == image.width * MemoryFormat::R16g16b16.pixel_bytes()
                &&& frame.memory_format == MemoryFormat::R16g16b16
                &&& frame.delay is None
                &&& frame.details == crate::utils::FrameDetails::nothing()
            },
            (None, Ok(_)) => false,
        },
{
    let data8 = match (image.data16, image.data8) {
        (Some(data16), _) => to_bytes(&data16, big_endian),
        (None, Some(data8)) => data8,
        (None, None) => return Err(ProcessError::ExpectedError(Operation::PixelData)),
    };
    if data8.len() < image.data_size {
        return Err(ProcessError::InternalError(Operation::FillTexture));
    }
    let mut memory = data8;
    memory.truncate(image.data_size);
    let texture = BinaryData::from_data(memory);

    match Frame::new(image.width, image.height, MemoryFormat::R16g16b16, texture) {
        Some(frame) => Ok(frame),
        None => Err(ProcessError::InternalError(Operation::CreateFrame)),
    }
}

/// What the renderer returns: the size of the developed image, its number of
/// bytes and its samples
pub type Rendered = Result<(u32, u32, usize, Option<Vec<u16>>), libopenraw::Error>;

/// Whether the renderer can return `outcome` when it is handed exactly this image
pub closed spec fn can_be_rendered_as(raw: &RawData, outcome: Rendered) -> bool {
    call_ensures(rendered_image, (raw,), outcome)
}

/// Whether the machine can store the number one as the given bytes
pub closed spec fn can_be_stored_as(one: [u8; 2]) -> bool {
    call_ensures(to_ne_bytes, (1u16,), one)
}

/// Whether a frame shows exactly the samples that the renderer returned, in the
/// given byte order, or there is none because a line of it is too long
pub open spec fn shows(
    outcome: Rendered,
    big_endian: bool,
    r: Result<Frame, ProcessError>,
) -> bool {
    match (outcome, r) {
        (Ok((_, _, size, Some(data16))), Ok(frame)) => frame.texture@ == Some(
            samples_as_bytes(data16@, big_endian).take(size as int),
        ),
        (Ok(_), Err(error)) => error == ProcessError::InternalError(Operation::CreateFrame),
        _ => false,
    }
}

/// Develop a raw image
///
/// The frame shows what the renderer makes of this image, in the byte order of
/// the machine.
pub fn render(rawdata: &RawData) -> (r: Result<Frame, ProcessError>)
    requires
        rawdata.is_consistent(),
    ensures
        match (rawdata.developed_size(), r) {
            (None, Err(error)) => error == ProcessError::ExpectedError(Operation::Decode),
            (Some((width, height)), Ok(frame)) => {
                &&& frame.width == width
                &&& frame.height == height
                &&& frame.stride == width * MemoryFormat::R16g16b16.pixel_bytes()
                &&& frame.memory_format == MemoryFormat::R16g16b16
                &&& frame.texture@ matches Some(pixels)
                &&& pixels.len() == rawdata.n_pixels() * MemoryFormat::R16g16b16.pixel_bytes()
                &&& rawdata.is_dark() ==> forall|i: int|
                    0 <= i < pixels.len() ==> #[trigger] pixels[i] == 0
                &&& frame.delay is None
                &&& frame.details == crate::utils::FrameDetails::nothing()
            },
            (Some((width, _)), Err(error)) => {
                &&& width * MemoryFormat::R16g16b16.pixel_bytes() > u32::MAX
                &&& error == ProcessError::InternalError(Operation::CreateFrame)
            },
            (None, Ok(_)) => false,
        },
        rawdata.developed_size() is Some ==> exists|outcome: Rendered, one: [u8; 2]|
            {
                &&& #[trigger] can_be_rendered_as(rawdata, outcome)
                &&& #[trigger] can_be_stored_as(one)
                &&& shows(outcome, one@ == bytes_of(1, true), r)
            },
{
    assert(MemoryFormat::R16g16b16.pixel_bytes() == 6);
    let outcome = rendered_image(rawdata);
    assert(can_be_rendered_as(rawdata, outcome));
    let ghost returned = outcome;
    match outcome {
        Ok((width, height, data_size, data16)) => {
            let one = to_ne_bytes(1);
            assert(can_be_stored_as(one));
            let image = RenderedImage { width, height, data_size, data16, data8: None };
            let r = frame_from_rendered(image, is_big_endian(one));
            assert(shows(returned, one@ == bytes_of(1, true), r));
            r
        },
        Err(_) => Err(ProcessError::ExpectedError(Operation::Decode)),
    }
}

/// The two bytes of a number make it up again: the first one is worth 256 times
/// as much as the other if the high byte comes first, and the second one
/// otherwise.
pub proof fn bytes_make_up_number(value: u16)
    ensures
        bytes_of(value, true).len() == 2,
        bytes_of(value, false).len() == 2,
        256 * bytes_of(value, true)[0] + bytes_of(value, true)[1] == value,
        bytes_of(value, false)[0] + 256 * bytes_of(value, false)[1] == value,
{
}

/// Every sample is in two bytes, at its own place, and nothing else is.
pub proof fn samples_are_in_order(samples: Seq<u16>, i: int)
    requires
        0 <= i < samples.len(),
    ensures
        ({
            let high_first = samples_as_bytes(samples, true);
            let low_first = samples_as_bytes(samples, false);
            &&& high_first.len() == 2 * samples.len()
            &&& low_first.len() == 2 * samples.len()
            &&& 256 * high_first[2 * i] + high_first[2 * i + 1] == samples[i]
            &&& low_first[2 * i] + 256 * low_first[2 * i + 1] == samples[i]
        }),
{
    assert((2 * i) / 2 == i && (2 * i) % 2 == 0);
    assert((2 * i + 1) / 2 == i && (2 * i + 1) % 2 == 1);
    bytes_make_up_number(samples[i]);
}

/// The pixels of a developed image are its samples, or else its bytes. Without
/// either there are none.
pub proof fn pixels_are_samples_or_bytes(image: RenderedImage, big_endian: bool)
    ensures
        match (image.data16, image.data8) {
            (Some(samples), _) => {
                &&& image.pixels(big_endian) matches Some(pixels)
                &&& pixels.len() == 2 * samples@.len()
                &&& forall|i: int|
                    0 <= i < samples@.len() ==> #[trigger] samples@[i] == if big_endian {
                        256 * pixels[2 * i] + pixels[2 * i + 1]
                    } else {
                        pixels[2 * i] + 256 * pixels[2 * i + 1]
                    }
            },
            (None, Some(bytes)) => image.pixels(big_endian) == Some(bytes@),
            (None, None) => image.pixels(big_endian) is None,
        },
{
    if let Some(samples) = image.data16 {
        assert forall|i: int| 0 <= i < samples@.len() implies #[trigger] samples@[i]
            == if big_endian {
            256 * image.pixels(big_endian)->0[2 * i] + image.pixels(big_endian)->0[2 * i + 1]
        } else {
            image.pixels(big_endian)->0[2 * i] + 256 * image.pixels(big_endian)->0[2 * i + 1]
        } by {
            samples_are_in_order(samples@, i);
        }
    }
}

/// A frame that shows what the renderer returned has its samples, one after the
/// other, as far as they belong to the image.
pub proof fn shown_samples_are_rendered_ones(
    outcome: Rendered,
    big_endian: bool,
    frame: Frame,
    size: usize,
    samples: Vec<u16>,
    i: int,
)
    requires
        shows(outcome, big_endian, Ok(frame)),
        outcome matches Ok((_, _, n_bytes, Some(data16))) && n_bytes == size && data16 == samples,
        size <= 2 * samples@.len(),
        0 <= 2 * i < size - 1,
    ensures
        frame.texture@ matches Some(pixels) && pixels.len() == size && samples@[i]
            == if big_endian {
            256 * pixels[2 * i] + pixels[2 * i + 1]
        } else {
            pixels[2 * i] + 256 * pixels[2 * i + 1]
        },
{
    samples_are_in_order(samples@, i);
}

/// Without a developed image there is no frame, and with one there is no other
/// error than that it is too large for a frame.
pub proof fn frame_shows_developed_image(
    outcome: Rendered,
    big_endian: bool,
    r: Result<Frame, ProcessError>,
)
    requires
        shows(outcome, big_endian, r),
    ensures
        outcome is Ok,
        r matches Err(error) ==> error == ProcessError::InternalError(Operation::CreateFrame),
        r is Ok ==> (outcome matches Ok((_, _, _, data16)) && data16 is Some),
{
}

/// Colors behind a filter are interpolated, for which a pixel is cut off at each
/// side. Raw gray values are developed as they are, and nothing else is.
pub proof fn border_is_cut_off(raw: RawData)
    requires
        raw.is_consistent(),
    ensures
        raw.photometric == PhotometricInterpretation::CFA && raw.pattern != ColorFilter::Empty ==> {
            &&& raw.developed_size() matches Some((width, height))
            &&& width + 2 == raw.width
            &&& height + 2 == raw.height
            &&& raw.n_pixels() == width * height
        },
        raw.photometric == PhotometricInterpretation::LinearRaw ==> {
            &&& raw.developed_size() == Some((raw.width, raw.height))
            &&& raw.n_pixels() == raw.samples@.len()
        },
        raw.photometric == PhotometricInterpretation::CFA && raw.pattern == ColorFilter::Empty
            ==> raw.developed_size() is None,
        raw.photometric != PhotometricInterpretation::CFA && raw.photometric
            != PhotometricInterpretation::LinearRaw ==> raw.developed_size() is None,
{
}

/// An image can be developed exactly if white is not darker than black, its
/// samples can be held in memory, a color filter has samples for all of its
/// pixels and is no smaller than its border, and the pixel that is logged is there
/// in every image that is large enough.
pub proof fn consistent_images(raw: RawData)
    ensures
        raw.is_consistent() <==> {
            let width = raw.width as int;
            let height = raw.height as int;
            let n_samples = raw.samples@.len() as int;
            &&& raw.black <= raw.white
            &&& n_samples <= isize::MAX / 48
            &&& width >= 1000 && height >= 1000 ==> 1000 * width + 1000 < n_samples
            &&& raw.photometric == PhotometricInterpretation::CFA && raw.pattern
                != ColorFilter::Empty ==> {
                &&& width >= 2 && height >= 2
                &&& width * height <= isize::MAX / 48
                &&& width == 2 || height == 2 || width * height <= n_samples
                &&& width >= 1002 && height >= 1002 ==> 1000 * (width - 2) + 1000 < (width - 2) * (
                height - 2)
            }
        },
{
}

/// An image behind a color filter is dark exactly if black is below white and no
/// sample is above black.
pub proof fn dark_images(raw: RawData)
    ensures
        raw.is_dark() <==> {
            &&& raw.photometric == PhotometricInterpretation::CFA
            &&& raw.pattern != ColorFilter::Empty
            &&& raw.black < raw.white
            &&& forall|i: int|
                0 <= i < raw.samples@.len() ==> #[trigger] raw.samples@[i] <= raw.black
        },
{
}

/// A header says of the metadata whether they are there and, of bytes, which.
pub proof fn header_keeps_metadata(header: RawHeader)
    ensures
        header@.width == header.width,
        header@.height == header.height,
        match header.metadata {
            Some(MetadataValue::Bytes(bytes)) => header@.metadata == Some(Some(bytes@)),
            Some(MetadataValue::Other) => header@.metadata == Some(None::<Seq<u8>>),
            None => header@.metadata is None,
        },
{
}

} // verus!
