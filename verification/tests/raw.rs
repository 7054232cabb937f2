use std::sync::Arc;

use glycin::raw::{
    frame_from_rendered, image_info, render, ColorFilter, MetadataValue, RawData, RawHeader,
    RenderedImage,
};
use glycin::utils::{BinaryData, MemoryFormat, Operation, ProcessError};
use libopenraw::tiff::exif::PhotometricInterpretation;

fn gray(width: u32, height: u32, samples: Vec<u16>) -> RawData {
    RawData {
        width,
        height,
        samples,
        white: 65535,
        black: 0,
        photometric: PhotometricInterpretation::LinearRaw,
        pattern: ColorFilter::Empty,
    }
}

fn filtered(width: u32, height: u32, samples: Vec<u16>, pattern: ColorFilter) -> RawData {
    RawData {
        photometric: PhotometricInterpretation::CFA,
        pattern,
        ..gray(width, height, samples)
    }
}

/// The samples of the only pixel that is left of 3 × 3 samples
fn developed_pixel(samples: Vec<u16>, pattern: ColorFilter) -> [u16; 3] {
    let raw = filtered(3, 3, samples, pattern);
    assert!(raw.consistent());
    let frame = render(&raw).unwrap();
    assert_eq!((frame.width, frame.height, frame.stride), (1, 1, 6));
    let bytes = frame.texture.get_full().unwrap();
    assert_eq!(bytes.len(), 6);
    [0, 2, 4].map(|i| u16::from_ne_bytes([bytes[i], bytes[i + 1]]))
}

fn rendered(data16: Option<Vec<u16>>, data8: Option<Vec<u8>>, data_size: usize) -> RenderedImage {
    RenderedImage {
        width: 1,
        height: 1,
        data_size,
        data16,
        data8,
    }
}

fn full(data: &Option<BinaryData>) -> Option<Vec<u8>> {
    data.as_ref().and_then(|data| data.get_full())
}

#[test]
fn raw_file_is_described() {
    let details = image_info(RawHeader {
        width: 2,
        height: 3,
        metadata: Some(MetadataValue::Bytes(b"<x:xmpmeta/>".to_vec())),
    });
    assert_eq!((details.width, details.height), (2, 3));
    assert_eq!(details.info_format_name.as_deref(), Some("RAW"));
    assert_eq!(full(&details.metadata_xmp), Some(b"<x:xmpmeta/>".to_vec()));
    assert!(details.metadata_exif.is_none());
    assert!(!details.transformation_ignore_exif);
}

#[test]
fn gray_values_are_developed() {
    let raw = gray(2, 2, vec![0, 65535, 65535, 0]);
    assert!(raw.consistent());
    let frame = render(&raw).unwrap();
    assert_eq!((frame.width, frame.height, frame.stride), (2, 2, 12));
    assert_eq!(frame.memory_format, MemoryFormat::R16g16b16);
    let mut expected = vec![0; 6];
    expected.extend([255; 12]);
    expected.extend([0; 6]);
    assert_eq!(frame.texture.get_full(), Some(expected));
}

#[test]
fn samples_are_stored_as_the_machine_does() {
    let frame = render(&gray(2, 1, vec![0, 1000])).unwrap();
    let bytes = frame.texture.get_full().unwrap();
    let sample = u16::from_ne_bytes([bytes[6], bytes[7]]);
    let expected = (1000f64 / 65535.).powf(10. / 22.) * 65535.;
    assert!((sample as f64 - expected).abs() < 2.);
}

#[test]
fn colors_are_interpolated() {
    let corners = vec![65535, 0, 65535, 0, 0, 0, 65535, 0, 65535];
    assert_eq!(developed_pixel(corners.clone(), ColorFilter::Rggb), [65535, 0, 0]);
    assert_eq!(developed_pixel(corners, ColorFilter::Bggr), [0, 0, 65535]);

    let above_and_below = vec![0, 65535, 0, 0, 0, 0, 0, 65535, 0];
    assert_eq!(developed_pixel(above_and_below.clone(), ColorFilter::Grbg), [65535, 0, 0]);
    assert_eq!(developed_pixel(above_and_below, ColorFilter::Gbrg), [0, 0, 65535]);
}

#[test]
fn white_and_black_are_used() {
    let mut raw = gray(3, 1, vec![10, 100, 200]);
    raw.black = 100;
    raw.white = 200;
    let bytes = render(&raw).unwrap().texture.get_full().unwrap();
    assert_eq!(bytes[..12], [0; 12]);
    assert_eq!(bytes[12..], [255; 6]);
}

#[test]
fn filters_without_light_are_black() {
    for pattern in [
        ColorFilter::Rggb,
        ColorFilter::Gbrg,
        ColorFilter::Bggr,
        ColorFilter::Grbg,
    ] {
        let mut raw = filtered(4, 3, vec![7, 3, 0, 7, 1, 2, 3, 4, 5, 6, 7, 7], pattern);
        raw.black = 7;
        raw.white = 8;
        assert!(raw.consistent());
        assert_eq!(render(&raw).unwrap().texture.get_full(), Some(vec![0; 12]));
    }
}

#[test]
fn border_is_cut_off() {
    for (width, height) in [(2, 2), (2, 5), (7, 2), (6, 4)] {
        let samples = vec![0; (width * height) as usize];
        let raw = filtered(width, height, samples, ColorFilter::Rggb);
        assert!(raw.consistent());
        let frame = render(&raw).unwrap();
        assert_eq!((frame.width, frame.height), (width - 2, height - 2));
        let n_bytes = 6 * (width - 2) * (height - 2);
        assert_eq!(frame.texture.get_full(), Some(vec![0; n_bytes as usize]));
    }
}

#[test]
fn images_that_cannot_be_developed() {
    let unknown_filter = filtered(3, 3, vec![0; 9], ColorFilter::Empty);
    assert!(unknown_filter.consistent());
    assert_eq!(
        render(&unknown_filter).err(),
        Some(ProcessError::ExpectedError(Operation::Decode))
    );

    let mut colors = gray(2, 2, vec![0; 4]);
    colors.photometric = PhotometricInterpretation::Rgb;
    assert!(colors.consistent());
    assert_eq!(
        render(&colors).err(),
        Some(ProcessError::ExpectedError(Operation::Decode))
    );

    let wide = gray(800000000, 1, vec![0]);
    assert!(wide.consistent());
    assert_eq!(
        render(&wide).err(),
        Some(ProcessError::InternalError(Operation::CreateFrame))
    );
}

#[test]
fn numbers_that_do_not_fit_together() {
    let mut dark = gray(1, 1, vec![0]);
    dark.black = 1;
    dark.white = 0;
    assert!(!dark.consistent());

    assert!(!filtered(1, 5, vec![0; 5], ColorFilter::Rggb).consistent());
    assert!(!filtered(5, 1, vec![0; 5], ColorFilter::Rggb).consistent());
    assert!(filtered(1, 5, vec![0; 5], ColorFilter::Empty).consistent());
    assert!(!filtered(3, 3, vec![0; 8], ColorFilter::Rggb).consistent());
    assert!(filtered(3, 3, vec![0; 10], ColorFilter::Rggb).consistent());

    assert!(!gray(1000, 1000, vec![0; 1000000]).consistent());
    assert!(gray(1000, 1002, vec![0; 1002000]).consistent());
    assert!(gray(999, 1000, vec![0; 999000]).consistent());
    assert!(!filtered(1002, 1002, vec![0; 1004004], ColorFilter::Rggb).consistent());
}

#[test]
fn metadata_other_than_bytes_are_no_xmp() {
    for metadata in [None, Some(MetadataValue::Other)] {
        let details = image_info(RawHeader {
            width: 3,
            height: 4,
            metadata,
        });
        assert_eq!((details.width, details.height), (3, 4));
        assert!(details.metadata_xmp.is_none());
        assert_eq!(details.info_format_name.as_deref(), Some("RAW"));
    }
}

#[test]
fn byte_order_of_samples() {
    let samples = vec![0x0102, 0x0304, 0xfffe];
    let little = frame_from_rendered(rendered(Some(samples.clone()), None, 6), false).unwrap();
    assert_eq!(little.texture.get_full(), Some(vec![2, 1, 4, 3, 0xfe, 0xff]));
    let big = frame_from_rendered(rendered(Some(samples), None, 6), true).unwrap();
    assert_eq!(big.texture.get_full(), Some(vec![1, 2, 3, 4, 0xff, 0xfe]));
    assert_eq!(big.stride, 6);
    assert_eq!(big.delay, None);
    assert!(big.details.color_icc_profile.is_none());
}

#[test]
fn pixels_of_bytes() {
    let frame = frame_from_rendered(rendered(None, Some(vec![1, 2, 3, 4, 5, 6, 7]), 6), false);
    assert_eq!(
        frame.unwrap().texture.get_full(),
        Some(vec![1, 2, 3, 4, 5, 6])
    );
}

#[test]
fn errors_of_developed_images() {
    assert_eq!(
        frame_from_rendered(rendered(None, None, 0), false).err(),
        Some(ProcessError::ExpectedError(Operation::PixelData))
    );
    assert_eq!(
        frame_from_rendered(rendered(Some(vec![1]), None, 3), false).err(),
        Some(ProcessError::InternalError(Operation::FillTexture))
    );
    let mut wide = rendered(Some(vec![1]), None, 2);
    wide.width = u32::MAX;
    assert_eq!(
        frame_from_rendered(wide, false).err(),
        Some(ProcessError::InternalError(Operation::CreateFrame))
    );
}

#[test]
fn unreadable_data() {
    let data = BinaryData {
        memory: Arc::new(None),
    };
    assert_eq!(data.get_full(), None);
}
