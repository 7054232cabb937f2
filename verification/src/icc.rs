//! Conversion of pixels from the color space of an ICC profile

use crate::color::{cicp_rec2020_linear, ColorState};
use crate::error::GlycinError;
use crate::utils::MemoryFormat;
use lcms2::{AllowCache, GlobalContext, Intent, PixelFormat, Profile, Transform};
use vstd::prelude::*;

verus! {

#[verifier::external_type_specification]
pub struct ExIntent(Intent);

#[verifier::external_type_specification]
pub struct ExPixelFormat(PixelFormat);

#[verifier::external_type_specification]
#[verifier::external_body]
pub struct ExGlobalContext(GlobalContext);

#[verifier::external_type_specification]
#[verifier::external_body]
pub struct ExAllowCache(AllowCache);

#[verifier::external_type_specification]
#[verifier::external_body]
#[verifier::reject_recursive_types(C)]
pub struct ExProfile<C>(Profile<C>);

#[verifier::external_type_specification]
#[verifier::external_body]
#[verifier::reject_recursive_types(I)]
#[verifier::reject_recursive_types(O)]
#[verifier::reject_recursive_types(C)]
#[verifier::reject_recursive_types(F)]
pub struct ExTransform<I, O, C, F>(Transform<I, O, C, F>);

/// Number of bytes per sample that a pixel format announces
pub open spec fn sample_bytes(format: PixelFormat) -> nat {
    (format.0 % 8) as nat
}

/// Number of color samples per pixel that a pixel format announces
pub open spec fn color_samples(format: PixelFormat) -> nat {
    (format.0 / 8 % 16) as nat
}

/// Number of further samples per pixel that a pixel format announces
pub open spec fn extra_samples(format: PixelFormat) -> nat {
    (format.0 / 128 % 8) as nat
}

/// Whether a pixel format stores the color samples in reverse order
pub open spec fn is_swapped(format: PixelFormat) -> bool {
    format.0 / 1024 % 2 == 1
}

/// Whether a pixel format keeps the channels in separate planes
pub open spec fn is_planar(format: PixelFormat) -> bool {
    format.0 / 4096 % 2 == 1
}

/// Whether a pixel format moves the extra sample to the other end of the pixel
pub open spec fn is_first_swapped(format: PixelFormat) -> bool {
    format.0 / 16384 % 2 == 1
}

/// Number of the color space of a pixel format: 3 for gray, 4 for RGB
pub open spec fn color_space(format: PixelFormat) -> nat {
    (format.0 / 65536 % 32) as nat
}

/// Whether the samples of a pixel format are floating-point numbers
pub open spec fn is_float(format: PixelFormat) -> bool {
    format.0 / 4194304 % 2 == 1
}

/// Whether the color samples of a pixel format are multiplied with alpha
pub open spec fn is_premultiplied(format: PixelFormat) -> bool {
    format.0 / 8388608 % 2 == 1
}

/// Number of bytes per pixel
pub open spec fn pixel_size(format: PixelFormat) -> nat {
    sample_bytes(format) * (color_samples(format) + extra_samples(format))
}

/// Whether blue is stored before red
pub open spec fn is_blue_first(format: MemoryFormat) -> bool {
    ||| format is B8g8r8a8Premultiplied
    ||| format is B8g8r8a8
    ||| format is A8b8g8r8
    ||| format is B8g8r8
}

/// Whether alpha is stored before the colors
pub open spec fn is_alpha_first(format: MemoryFormat) -> bool {
    ||| format is A8r8g8b8Premultiplied
    ||| format is A8r8g8b8
    ||| format is A8b8g8r8
}

/// One where `flag` holds, else zero
pub open spec fn bit(flag: bool) -> int {
    if flag {
        1
    } else {
        0
    }
}

/// Whether alpha is away from the end to which the order of the samples
/// brings it
///
/// Storing the samples in reverse order brings alpha to the front.
pub open spec fn is_alpha_moved(format: MemoryFormat) -> bool {
    !format.is_opaque() && is_alpha_first(format) != is_blue_first(format)
}

/// The pixel format of Little CMS for a memory format, put together from its
/// fields
pub open spec fn lcms_format(format: MemoryFormat) -> PixelFormat {
    let colors: int = if format.is_gray() {
        1
    } else {
        3
    };
    let space: int = if format.is_gray() {
        3
    } else {
        4
    };
    PixelFormat(
        (format.channel_bytes() + 8 * colors + 128 * bit(!format.is_opaque()) + 1024 * bit(
            is_blue_first(format),
        ) + 16384 * bit(is_alpha_moved(format)) + 65536 * space + 4194304 * bit(format.is_float())
            + 8388608 * bit(format.is_premultiplied())) as u32,
    )
}

/// Every memory format is mapped to a pixel format that says of itself what
/// the memory format is: number, width, kind and order of the samples, color
/// space and treatment of alpha. A pixel takes the same number of bytes in both.
pub proof fn lcms_format_describes_memory_format(format: MemoryFormat)
    ensures
        sample_bytes(lcms_format(format)) == format.channel_bytes(),
        color_samples(lcms_format(format)) == if format.is_gray() {
            1nat
        } else {
            3
        },
        extra_samples(lcms_format(format)) == bit(!format.is_opaque()),
        is_swapped(lcms_format(format)) == is_blue_first(format),
        is_first_swapped(lcms_format(format)) == is_alpha_moved(format),
        !is_planar(lcms_format(format)),
        color_space(lcms_format(format)) == if format.is_gray() {
            3nat
        } else {
            4
        },
        is_float(lcms_format(format)) == format.is_float(),
        is_premultiplied(lcms_format(format)) == format.is_premultiplied(),
        pixel_size(lcms_format(format)) == format.pixel_bytes(),
{
}

/// No two memory formats are mapped to the same pixel format.
pub proof fn lcms_format_is_injective(one: MemoryFormat, other: MemoryFormat)
    requires
        lcms_format(one) == lcms_format(other),
    ensures
        one == other,
{
}

/// The number of the pixel format for each memory format: the constant for the
/// same order and width of the channels, with the mark for colors that are
/// multiplied with alpha where they are.
pub proof fn lcms_format_numbers(format: MemoryFormat)
    ensures
        lcms_format(format).0 == match format {
            MemoryFormat::B8g8r8a8Premultiplied => 0x844499u32,
            MemoryFormat::A8r8g8b8Premultiplied => 0x844099u32,
            MemoryFormat::R8g8b8a8Premultiplied => 0x840099u32,
            MemoryFormat::B8g8r8a8 => 0x44499u32,
            MemoryFormat::A8r8g8b8 => 0x44099u32,
            MemoryFormat::R8g8b8a8 => 0x40099u32,
            MemoryFormat::A8b8g8r8 => 0x40499u32,
            MemoryFormat::R8g8b8 => 0x40019u32,
            MemoryFormat::B8g8r8 => 0x40419u32,
            MemoryFormat::R16g16b16 => 0x4001au32,
            MemoryFormat::R16g16b16a16Premultiplied => 0x84009au32,
            MemoryFormat::R16g16b16a16 => 0x4009au32,
            MemoryFormat::R16g16b16Float => 0x44001au32,
            MemoryFormat::R16g16b16a16Float => 0x44009au32,
            MemoryFormat::R32g32b32Float => 0x44001cu32,
            MemoryFormat::R32g32b32a32FloatPremultiplied => 0xc4009cu32,
            MemoryFormat::R32g32b32a32Float => 0x44009cu32,
            MemoryFormat::G8a8Premultiplied => 0x830089u32,
            MemoryFormat::G8a8 => 0x30089u32,
            MemoryFormat::G8 => 0x30009u32,
            MemoryFormat::G16a16Premultiplied => 0x83008au32,
            MemoryFormat::G16a16 => 0x3008au32,
            MemoryFormat::G16 => 0x3000au32,
        },
{
}

/// The pixel formats of Little CMS that memory formats are mapped to
pub(crate) struct PixelFormats {
    pub(crate) bgra_8: PixelFormat,
    pub(crate) argb_8: PixelFormat,
    pub(crate) rgba_8: PixelFormat,
    pub(crate) abgr_8: PixelFormat,
    pub(crate) rgb_8: PixelFormat,
    pub(crate) bgr_8: PixelFormat,
    pub(crate) rgb_16: PixelFormat,
    pub(crate) rgba_16: PixelFormat,
    pub(crate) rgb_half_flt: PixelFormat,
    pub(crate) rgba_half_flt: PixelFormat,
    pub(crate) rgb_flt: PixelFormat,
    pub(crate) rgba_flt: PixelFormat,
    pub(crate) graya_8: PixelFormat,
    pub(crate) gray_8: PixelFormat,
    pub(crate) graya_16: PixelFormat,
    pub(crate) gray_16: PixelFormat,
}

/// The constants of `lcms2::PixelFormat` that bear the names of the fields,
/// with the numbers that they have.
#[verifier::external_body]
fn pixel_formats() -> (r: PixelFormats)
    ensures
        r.bgra_8.0 == 0x44499,
        r.argb_8.0 == 0x44099,
        r.rgba_8.0 == 0x40099,
        r.abgr_8.0 == 0x40499,
        r.rgb_8.0 == 0x40019,
        r.bgr_8.0 == 0x40419,
        r.rgb_16.0 == 0x4001a,
        r.rgba_16.0 == 0x4009a,
        r.rgb_half_flt.0 == 0x44001a,
        r.rgba_half_flt.0 == 0x44009a,
        r.rgb_flt.0 == 0x44001c,
        r.rgba_flt.0 == 0x44009c,
        r.graya_8.0 == 0x30089,
        r.gray_8.0 == 0x30009,
        r.graya_16.0 == 0x3008a,
        r.gray_16.0 == 0x3000a,
{
    PixelFormats {
        bgra_8: PixelFormat::BGRA_8, argb_8: PixelFormat::ARGB_8,
        rgba_8: PixelFormat::RGBA_8, abgr_8: PixelFormat::ABGR_8,
        rgb_8: PixelFormat::RGB_8, bgr_8: PixelFormat::BGR_8,
        rgb_16: PixelFormat::RGB_16, rgba_16: PixelFormat::RGBA_16,
        rgb_half_flt: PixelFormat::RGB_HALF_FLT, rgba_half_flt: PixelFormat::RGBA_HALF_FLT,
        rgb_flt: PixelFormat::RGB_FLT, rgba_flt: PixelFormat::RGBA_FLT,
        graya_8: PixelFormat::GRAYA_8, gray_8: PixelFormat::GRAY_8,
        graya_16: PixelFormat::GRAYA_16, gray_16: PixelFormat::GRAY_16,
    }
}

/// The same pixel format with colors that are multiplied with alpha
pub fn premul(format: PixelFormat) -> (r: PixelFormat)
    ensures
        is_premultiplied(r),
        r.0 / 8388608 % 2 == 1,
        r.0 % 8388608 == format.0 % 8388608,
        r.0 / 16777216 == format.0 / 16777216,
{
    let bytes: u32 = format.0;
    let marked: u32 = bytes | (1u32 << 23);
    assert(marked / 8388608 % 2 == 1 && marked % 8388608 == bytes % 8388608 && marked / 16777216
        == bytes / 16777216) by (bit_vector)
        requires
            marked == bytes | (1u32 << 23),
    ;
    PixelFormat(marked)
}

/// The pixel format of Little CMS for a memory format
pub fn lcms_pixel_format(format: MemoryFormat) -> (r: PixelFormat)
    ensures
        r == lcms_format(format),
{
    let formats = pixel_formats();
    match format {
        MemoryFormat::B8g8r8a8Premultiplied => premul(formats.bgra_8),
        MemoryFormat::A8r8g8b8Premultiplied => premul(formats.argb_8),
        MemoryFormat::R8g8b8a8Premultiplied => premul(formats.rgba_8),
        MemoryFormat::B8g8r8a8 => formats.bgra_8,
        MemoryFormat::A8r8g8b8 => formats.argb_8,
        MemoryFormat::R8g8b8a8 => formats.rgba_8,
        MemoryFormat::A8b8g8r8 => formats.abgr_8,
        MemoryFormat::R8g8b8 => formats.rgb_8,
        MemoryFormat::B8g8r8 => formats.bgr_8,
        MemoryFormat::R16g16b16 => formats.rgb_16,
        MemoryFormat::R16g16b16a16Premultiplied => premul(formats.rgba_16),
        MemoryFormat::R16g16b16a16 => formats.rgba_16,
        MemoryFormat::R16g16b16Float => formats.rgb_half_flt,
        MemoryFormat::R16g16b16a16Float => formats.rgba_half_flt,
        MemoryFormat::R32g32b32Float => formats.rgb_flt,
        MemoryFormat::R32g32b32a32FloatPremultiplied => premul(formats.rgba_flt),
        MemoryFormat::R32g32b32a32Float => formats.rgba_flt,
        MemoryFormat::G8a8Premultiplied => premul(formats.graya_8),
        MemoryFormat::G8a8 => formats.graya_8,
        MemoryFormat::G8 => formats.gray_8,
        MemoryFormat::G16a16Premultiplied => premul(formats.graya_16),
        MemoryFormat::G16a16 => formats.graya_16,
        MemoryFormat::G16 => formats.gray_16,
    }
}

/// What `Profile::new_icc` returns for the bytes of a profile
pub uninterp spec fn icc_profile(icc: Seq<u8>) -> Result<Profile, lcms2::Error>;

/// `Profile::new_icc`: parses the bytes of an ICC profile. What it returns
/// depends on the bytes alone.
#[verifier::external_body]
fn new_icc(icc: &[u8]) -> (r: Result<Profile, lcms2::Error>)
    ensures
        r == icc_profile(icc@),
{
    Profile::new_icc(icc)
}

/// What `Transform::new` returns for two profiles, the pixel format of both
/// sides and a rendering intent
pub uninterp spec fn color_transform(
    source: Profile,
    target: Profile,
    format: PixelFormat,
    intent: Intent,
) -> Result<Transform<u8, u8>, lcms2::Error>;

/// How many bytes a transform takes as one pixel
pub uninterp spec fn transform_pixel_size(transform: Transform<u8, u8>) -> nat;

/// `Transform::new` for byte buffers, with one pixel format on both sides.
/// With the perceptual intent, what it returns depends on the arguments alone.
/// The transform takes as many bytes for a pixel as the pixel format says, where
/// the format gives the bytes of a sample.
#[verifier::external_body]
fn new_transform(source: &Profile, target: &Profile, format: PixelFormat, intent: Intent) -> (r:
    Result<Transform<u8, u8>, lcms2::Error>)
    requires
        !is_planar(format),
        sample_bytes(format) > 0,
        intent == Intent::Perceptual,
    ensures
        r == color_transform(*source, *target, format, intent),
        r matches Ok(transform) ==> transform_pixel_size(transform) == pixel_size(format),
{
    Transform::new(source, format, target, format, intent)
}

/// The bytes that a transform makes of the bytes of pixels
pub uninterp spec fn transformed(transform: Transform<u8, u8>, pixels: Seq<u8>) -> Seq<u8>;

/// `Transform::transform_in_place`: replaces the pixels by what the transform
/// makes of them, which depends on the transform and the pixels alone. It
/// panics where the buffer ends within a pixel.
#[verifier::external_body]
fn transform_in_place(transform: &Transform<u8, u8>, buf: &mut [u8])
    requires
        transform_pixel_size(*transform) > 0,
        old(buf)@.len() % transform_pixel_size(*transform) == 0,
    ensures
        final(buf)@ == transformed(*transform, old(buf)@),
        final(buf)@.len() == old(buf)@.len(),
{
    transform.transform_in_place(buf)
}

/// Color profiles that pixels are converted to
///
/// Which one is used depends on the number of channels of the pixels.
pub struct TargetProfiles {
    /// BT.2020 primaries with a linear transfer function
    pub rec2020: Profile,
    /// Gray values for a D50 white point with a gamma of 2.2
    pub gray: Result<Profile, lcms2::Error>,
}

impl TargetProfiles {
    /// The profile for pixels of the given format
    pub open spec fn for_format(self, format: MemoryFormat) -> Result<Profile, lcms2::Error> {
        if format.channel_count() > 2 {
            Ok(self.rec2020)
        } else {
            self.gray
        }
    }
}

/// The color space that pixels of the given format are converted to
pub open spec fn target_color_state(format: MemoryFormat) -> ColorState {
    if format.channel_count() > 2 {
        ColorState::Cicp(crate::color::rec2020_linear())
    } else {
        ColorState::Srgb
    }
}

/// The transform from an ICC profile to the profile for the given format, or
/// the first error on the way there
pub open spec fn transform_for(
    icc_profile: Result<Profile, lcms2::Error>,
    format: MemoryFormat,
    targets: TargetProfiles,
) -> Result<Transform<u8, u8>, lcms2::Error> {
    match (icc_profile, targets.for_format(format)) {
        (Err(error), _) => Err(error),
        (Ok(_), Err(error)) => Err(error),
        (Ok(source), Ok(target)) => color_transform(
            source,
            target,
            lcms_format(format),
            Intent::Perceptual,
        ),
    }
}

/// Whether pixels of the given format can be converted in a buffer of the given
/// length, if there is a transform for them: the buffer does not end within a
/// pixel
pub open spec fn is_usable_buffer(
    transform: Result<Transform<u8, u8>, lcms2::Error>,
    format: MemoryFormat,
    len: nat,
) -> bool {
    transform is Ok ==> len % format.pixel_bytes() == 0
}

/// Pixels with colors, with or without alpha, are converted to BT.2020 with a
/// linear transfer function and described as that. Gray values, with or without
/// alpha, are converted to the gray profile and described as sRGB.
pub proof fn color_state_belongs_to_target(format: MemoryFormat, targets: TargetProfiles)
    ensures
        match format {
            MemoryFormat::G8 | MemoryFormat::G8a8 | MemoryFormat::G8a8Premultiplied => {
                &&& targets.for_format(format) == targets.gray
                &&& target_color_state(format) is Srgb
            },
            MemoryFormat::G16 | MemoryFormat::G16a16 | MemoryFormat::G16a16Premultiplied => {
                &&& targets.for_format(format) == targets.gray
                &&& target_color_state(format) is Srgb
            },
            _ => {
                &&& targets.for_format(format) == Ok::<Profile, lcms2::Error>(targets.rec2020)
                &&& target_color_state(format) matches ColorState::Cicp(color)
                &&& color.color_primaries == gufo_common::cicp::ColorPrimaries::Rec2020
                &&& color.transfer_characteristics
                    == gufo_common::cicp::TransferCharacteristics::Linear
                &&& color.matrix_coefficients == gufo_common::cicp::MatrixCoefficients::Identity
                &&& color.video_full_range_flag == gufo_common::cicp::VideoRangeFlag::Full
            },
        },
        format.is_gray() <==> target_color_state(format) is Srgb,
{
}

/// The transform goes from the profile of the pixels to the profile that they
/// are converted to, and keeps the pixel format. Without one of the profiles the
/// error is the one of the first that is missing.
pub proof fn transform_leads_to_target(
    icc_profile: Result<Profile, lcms2::Error>,
    format: MemoryFormat,
    targets: TargetProfiles,
)
    ensures
        match icc_profile {
            Err(error) => transform_for(icc_profile, format, targets) == Err::<
                Transform<u8, u8>,
                lcms2::Error,
            >(error),
            Ok(source) => if !format.is_gray() {
                transform_for(icc_profile, format, targets) == color_transform(
                    source,
                    targets.rec2020,
                    lcms_format(format),
                    Intent::Perceptual,
                )
            } else {
                match targets.gray {
                    Ok(target) => transform_for(icc_profile, format, targets) == color_transform(
                        source,
                        target,
                        lcms_format(format),
                        Intent::Perceptual,
                    ),
                    Err(error) => transform_for(icc_profile, format, targets) == Err::<
                        Transform<u8, u8>,
                        lcms2::Error,
                    >(error),
                }
            },
        },
{
}

/// A buffer can be used exactly if it holds whole pixels, or if there is no
/// transform that would touch it.
pub proof fn usable_buffers_hold_whole_pixels(
    transform: Result<Transform<u8, u8>, lcms2::Error>,
    format: MemoryFormat,
    len: nat,
)
    ensures
        transform is Err ==> is_usable_buffer(transform, format, len),
        transform is Ok ==> (is_usable_buffer(transform, format, len) <==> len % (
        format.channel_bytes() * format.channel_count()) == 0),
{
}

/// Convert pixels from the color space of an ICC profile and return the color
/// space that they are in afterwards
///
/// The pixels are not touched if that is not possible.
pub fn apply_transformation(
    iccp: &[u8],
    memory_format: MemoryFormat,
    mmap: &mut [u8],
    targets: &TargetProfiles,
) -> (r: Result<ColorState, GlycinError>)
    requires
        is_usable_buffer(
            transform_for(icc_profile(iccp@), memory_format, *targets),
            memory_format,
            old(mmap)@.len(),
        ),
    ensures
        match transform_for(icc_profile(iccp@), memory_format, *targets) {
            Ok(transform) => {
                &&& r == Ok::<ColorState, GlycinError>(target_color_state(memory_format))
                &&& r->Ok_0 is Srgb <==> memory_format.is_gray()
                &&& final(mmap)@ == transformed(transform, old(mmap)@)
            },
            Err(error) => {
                &&& r == Err::<ColorState, GlycinError>(GlycinError::Lcms(error))
                &&& final(mmap)@ == old(mmap)@
            },
        },
        final(mmap)@.len() == old(mmap)@.len(),
{
    match transform(new_icc(iccp), memory_format, mmap, targets) {
        Ok(color_state) => Ok(color_state),
        Err(error) => Err(GlycinError::Lcms(error)),
    }
}

/// Convert pixels as [`apply_transformation`] does, for a buffer of any length
///
/// Returns `None`, and does not touch the pixels, if there is a transform but
/// the buffer ends within a pixel.
pub fn try_apply_transformation(
    iccp: &[u8],
    memory_format: MemoryFormat,
    mmap: &mut [u8],
    targets: &TargetProfiles,
) -> (r: Option<Result<ColorState, GlycinError>>)
    ensures
        match transform_for(icc_profile(iccp@), memory_format, *targets) {
            Ok(transform) => if old(mmap)@.len() % memory_format.pixel_bytes() == 0 {
                &&& r == Some(Ok::<ColorState, GlycinError>(target_color_state(memory_format)))
                &&& final(mmap)@ == transformed(transform, old(mmap)@)
            } else {
                &&& r is None
                &&& final(mmap)@ == old(mmap)@
            },
            Err(error) => {
                &&& r == Some(Err::<ColorState, GlycinError>(GlycinError::Lcms(error)))
                &&& final(mmap)@ == old(mmap)@
            },
        },
        final(mmap)@.len() == old(mmap)@.len(),
{
    if mmap.len() % memory_format.n_bytes() as usize == 0 {
        Some(apply_transformation(iccp, memory_format, mmap, targets))
    } else {
        match transform_to_target(new_icc(iccp), memory_format, targets) {
            Ok(_) => None,
            Err(error) => Some(Err(GlycinError::Lcms(error))),
        }
    }
}

/// Convert pixels from the color space of a profile
pub fn transform(
    icc_profile: Result<Profile, lcms2::Error>,
    memory_format: MemoryFormat,
    buf: &mut [u8],
    targets: &TargetProfiles,
) -> (r: Result<ColorState, lcms2::Error>)
    requires
        is_usable_buffer(
            transform_for(icc_profile, memory_format, *targets),
            memory_format,
            old(buf)@.len(),
        ),
    ensures
        match transform_for(icc_profile, memory_format, *targets) {
            Ok(transform) => {
                &&& r == Ok::<ColorState, lcms2::Error>(target_color_state(memory_format))
                &&& r->Ok_0 is Srgb <==> memory_format.is_gray()
                &&& final(buf)@ == transformed(transform, old(buf)@)
            },
            Err(error) => {
                &&& r == Err::<ColorState, lcms2::Error>(error)
                &&& final(buf)@ == old(buf)@
            },
        },
        final(buf)@.len() == old(buf)@.len(),
{
    let transform = match transform_to_target(icc_profile, memory_format, targets) {
        Ok(transform) => transform,
        Err(error) => return Err(error),
    };

    let target_color_state = if memory_format.n_channels() > 2 {
        ColorState::Cicp(cicp_rec2020_linear())
    } else {
        ColorState::Srgb
    };

    proof {
        lcms_format_describes_memory_format(memory_format);
    }
    transform_in_place(&transform, buf);

    Ok(target_color_state)
}

/// The transform from a profile to the one for the given format
fn transform_to_target(
    icc_profile: Result<Profile, lcms2::Error>,
    memory_format: MemoryFormat,
    targets: &TargetProfiles,
) -> (r: Result<Transform<u8, u8>, lcms2::Error>)
    ensures
        r == transform_for(icc_profile, memory_format, *targets),
        match r {
            Ok(transform) => transform_pixel_size(transform) == memory_format.pixel_bytes(),
            Err(_) => true,
        },
{
    let icc_pixel_format = lcms_pixel_format(memory_format);
    let src_profile = match icc_profile {
        Ok(profile) => profile,
        Err(error) => return Err(error),
    };

    let target_profile: &Profile = if memory_format.n_channels() > 2 {
        &targets.rec2020
    } else {
        match &targets.gray {
            Ok(profile) => profile,
            Err(error) => return Err(*error),
        }
    };

    proof {
        lcms_format_describes_memory_format(memory_format);
    }
    new_transform(&src_profile, target_profile, icc_pixel_format, Intent::Perceptual)
}

} // verus!
