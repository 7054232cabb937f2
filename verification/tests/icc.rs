use glycin::color::ColorState;
use glycin::error::GlycinError;
use glycin::icc::{
    apply_transformation, lcms_pixel_format, premul, transform, try_apply_transformation,
    TargetProfiles,
};
use glycin::utils::MemoryFormat;

const FORMATS: [MemoryFormat; 23] = [
    MemoryFormat::B8g8r8a8Premultiplied,
    MemoryFormat::A8r8g8b8Premultiplied,
    MemoryFormat::R8g8b8a8Premultiplied,
    MemoryFormat::B8g8r8a8,
    MemoryFormat::A8r8g8b8,
    MemoryFormat::R8g8b8a8,
    MemoryFormat::A8b8g8r8,
    MemoryFormat::R8g8b8,
    MemoryFormat::B8g8r8,
    MemoryFormat::R16g16b16,
    MemoryFormat::R16g16b16a16Premultiplied,
    MemoryFormat::R16g16b16a16,
    MemoryFormat::R16g16b16Float,
    MemoryFormat::R16g16b16a16Float,
    MemoryFormat::R32g32b32Float,
    MemoryFormat::R32g32b32a32FloatPremultiplied,
    MemoryFormat::R32g32b32a32Float,
    MemoryFormat::G8a8Premultiplied,
    MemoryFormat::G8a8,
    MemoryFormat::G8,
    MemoryFormat::G16a16Premultiplied,
    MemoryFormat::G16a16,
    MemoryFormat::G16,
];

fn xy(x: f64, y: f64) -> lcms2::CIExyY {
    lcms2::CIExyY { x, y, Y: 1. }
}

fn targets() -> TargetProfiles {
    let primaries = lcms2::CIExyYTRIPLE {
        Red: xy(0.708, 0.292),
        Green: xy(0.170, 0.797),
        Blue: xy(0.131, 0.046),
    };
    let linear = lcms2::ToneCurve::new(1.);
    TargetProfiles {
        rec2020: lcms2::Profile::new_rgb(
            &xy(0.3127, 0.3290),
            &primaries,
            &[&linear, &linear, &linear],
        )
        .unwrap(),
        gray: lcms2::Profile::new_gray(
            lcms2_sys::ffi::CIExyY::d50(),
            &lcms2::ToneCurve::new(2.2),
        ),
    }
}

fn srgb_icc() -> Vec<u8> {
    lcms2::Profile::new_srgb().icc().unwrap()
}

fn gray_icc() -> Vec<u8> {
    lcms2::Profile::new_gray(lcms2_sys::ffi::CIExyY::d50(), &lcms2::ToneCurve::new(1.))
        .unwrap()
        .icc()
        .unwrap()
}

#[test]
fn premul_test() {
    assert!(!lcms2::PixelFormat::RGBA_8.premultiplied());
    assert!(premul(lcms2::PixelFormat::RGBA_8).premultiplied());
}

#[test]
fn premul_keeps_the_rest() {
    let format = lcms2::PixelFormat::RGBA_16;
    let marked = premul(format);
    assert_eq!(marked.0, format.0 | 0b1 << 23);
    assert_eq!(marked.bytes_per_pixel(), format.bytes_per_pixel());
    assert_eq!(premul(marked).0, marked.0);
}

#[test]
fn pixel_formats_describe_memory_formats() {
    for format in FORMATS {
        let lcms_format = lcms_pixel_format(format);
        assert_eq!(lcms_format.bytes_per_pixel(), format.n_bytes() as usize, "{format:?}");
        assert!(!lcms_format.planar());
        let name = format!("{format:?}");
        assert_eq!(lcms_format.premultiplied(), name.ends_with("Premultiplied"), "{name}");
        assert_eq!(lcms_format.float(), name.contains("Float"), "{name}");
    }
    assert_eq!(
        lcms_pixel_format(MemoryFormat::A8b8g8r8).0,
        lcms2::PixelFormat::ABGR_8.0
    );
    assert_eq!(
        lcms_pixel_format(MemoryFormat::R16g16b16a16Float).0,
        lcms2::PixelFormat::RGBA_HALF_FLT.0
    );
}

#[test]
fn pixel_formats_are_distinct() {
    for (i, one) in FORMATS.iter().enumerate() {
        for other in &FORMATS[..i] {
            assert_ne!(lcms_pixel_format(*one).0, lcms_pixel_format(*other).0);
        }
    }
}

#[test]
fn pixels_become_linear() {
    let mut pixels = vec![0, 0, 0, 255, 255, 255, 128, 128, 128];
    let state = apply_transformation(&srgb_icc(), MemoryFormat::R8g8b8, &mut pixels, &targets());
    let Ok(ColorState::Cicp(color)) = state else {
        panic!("the conversion failed");
    };
    assert_eq!(color, gufo_common::cicp::Cicp::REC2020_LINEAR);
    assert_eq!(pixels, [0, 0, 0, 255, 255, 255, 55, 55, 55]);
}

#[test]
fn gray_values_get_the_gray_profile() {
    let mut pixels = vec![0, 255, 55];
    let state = apply_transformation(&gray_icc(), MemoryFormat::G8, &mut pixels, &targets());
    assert!(matches!(state, Ok(ColorState::Srgb)));
    assert_eq!(pixels[..2], [0, 255]);
    assert_eq!(pixels[2], 127);
}

#[test]
fn broken_profile_is_an_error() {
    let mut pixels = vec![1, 2, 3];
    let state = apply_transformation(b"broken", MemoryFormat::R8g8b8, &mut pixels, &targets());
    assert!(matches!(
        state,
        Err(GlycinError::Lcms(lcms2::Error::ObjectCreationError))
    ));
    assert_eq!(pixels, [1, 2, 3]);
}

#[test]
fn profile_for_other_channels_is_an_error() {
    let mut pixels = vec![1, 2, 3];
    let state = apply_transformation(&srgb_icc(), MemoryFormat::G8, &mut pixels, &targets());
    assert!(matches!(state, Err(GlycinError::Lcms(_))));
    assert_eq!(pixels, [1, 2, 3]);
}

#[test]
fn error_of_a_profile_is_passed_on() {
    let mut pixels = vec![1, 2, 3];
    let state = transform(
        Err(lcms2::Error::MissingData),
        MemoryFormat::R8g8b8,
        &mut pixels,
        &targets(),
    );
    assert!(matches!(state, Err(lcms2::Error::MissingData)));

    let mut missing_gray = targets();
    missing_gray.gray = Err(lcms2::Error::InvalidString);
    let state = transform(
        lcms2::Profile::new_icc(&gray_icc()),
        MemoryFormat::G8,
        &mut pixels,
        &missing_gray,
    );
    assert!(matches!(state, Err(lcms2::Error::InvalidString)));
    assert_eq!(pixels, [1, 2, 3]);
}

#[test]
fn buffers_that_end_within_a_pixel() {
    let format = MemoryFormat::R8g8b8;
    let mut pixels = vec![128, 128, 128, 128];
    assert!(try_apply_transformation(&srgb_icc(), format, &mut pixels, &targets()).is_none());
    assert_eq!(pixels, [128, 128, 128, 128]);

    // Without a transform the error comes whatever the length is
    let state = try_apply_transformation(b"broken", format, &mut pixels, &targets());
    assert!(matches!(state, Some(Err(GlycinError::Lcms(_)))));
    let state = apply_transformation(b"broken", format, &mut pixels, &targets());
    assert!(matches!(state, Err(GlycinError::Lcms(_))));
    let state = try_apply_transformation(&gray_icc(), format, &mut pixels, &targets());
    assert!(matches!(state, Some(Err(GlycinError::Lcms(_)))));
    assert_eq!(pixels, [128, 128, 128, 128]);

    pixels.pop();
    let state = try_apply_transformation(&srgb_icc(), format, &mut pixels, &targets());
    assert!(matches!(state, Some(Ok(ColorState::Cicp(_)))));
    assert_eq!(pixels, [55, 55, 55]);
}
