use std::collections::BTreeMap;
use std::sync::Arc;
use std::time::Duration;

use glycin::api_loader::{
    Frame, FrameDetails, FrameRequest, Image, LoadError, Loader, Loading, ProcessBasics,
    RemoteImage, SandboxSelector, Source,
};
use glycin::color::ColorState;
use glycin::sandbox::SandboxMechanism;
use glycin::utils;
use glycin::utils::{BinaryData, MemoryFormat, MemoryFormatSelection, MimeType};
use gufo_common::cicp::{
    Cicp, ColorPrimaries, MatrixCoefficients, TransferCharacteristics, VideoRangeFlag,
};

type TestLoader = Loader<&'static str, u8, &'static str, u32>;
type TestImage = Image<&'static str, u8, &'static str, u32, &'static str>;

fn basics(worker: Option<u16>) -> ProcessBasics<&'static str, u16> {
    ProcessBasics {
        process: "process",
        g_file_worker: worker,
        mime_type: MimeType("image/png".to_string()),
        sandbox_mechanism: SandboxMechanism::Bwrap,
    }
}

fn loaded(loader: TestLoader) -> TestImage {
    let first: Result<ProcessBasics<&str, u16>, ()> = Ok(basics(Some(9)));
    let (loading, worker) = loader.load(first).ok().unwrap();
    assert_eq!(worker, 9);
    let second: Result<RemoteImage, ()> = Ok(RemoteImage {
        frame_request: "/path".to_string(),
        details: utils::ImageDetails::new(3, 4),
    });
    loading.finish(second).ok().unwrap()
}

fn frame() -> Frame {
    let mut details = utils::FrameDetails::default();
    details.info_bit_depth = Some(16);
    Frame {
        buffer: Arc::new(vec![1, 2, 3]),
        width: 1,
        height: 1,
        stride: 3,
        memory_format: MemoryFormat::R8g8b8,
        delay: Some(Duration::from_millis(40)),
        details: Arc::new(details),
        color_state: ColorState::Srgb,
    }
}

#[test]
fn default_options() {
    let loader = TestLoader::new("file", "pool", 5);
    assert!(matches!(loader.source, Source::File("file")));
    assert_eq!((loader.pool, loader.cancellable), ("pool", 5));
    assert!(loader.apply_transformations);
    assert!(!loader.use_expose_base_dir);
    assert_eq!(loader.sandbox_selector, SandboxSelector::Auto);
    assert_eq!(loader.memory_format_selection.formats.len(), 23);

    let loader = TestLoader::new_stream(8, "pool", 5);
    assert!(matches!(loader.source, Source::Stream(8)));
}

#[test]
fn options_are_set_one_by_one() {
    let mut loader = TestLoader::new("file", "pool", 5);
    loader
        .apply_transformations(false)
        .use_expose_base_dir(true)
        .cancellable(6)
        .sandbox_selector(SandboxSelector::Mechanism(SandboxMechanism::NotSandboxed))
        .accepted_memory_formats(MemoryFormatSelection {
            formats: vec![MemoryFormat::G8],
        });
    assert!(!loader.apply_transformations);
    assert!(loader.use_expose_base_dir);
    assert_eq!(loader.cancellable, 6);
    assert_eq!(
        loader.sandbox_selector,
        SandboxSelector::Mechanism(SandboxMechanism::NotSandboxed)
    );
    assert_eq!(loader.memory_format_selection.formats, [MemoryFormat::G8]);
    assert_eq!(loader.pool, "pool");
}

#[test]
fn image_remembers_how_it_was_loaded() {
    let image = loaded(TestLoader::new("file", "pool", 5));
    assert_eq!(image.file(), Some(&"file"));
    assert_eq!(image.cancellable(), &5);
    assert_eq!(image.mime_type().0, "image/png");
    assert_eq!(image.frame_request_path(), "/path");
    assert_eq!(image.active_sandbox_mechanism(), SandboxMechanism::Bwrap);
    assert_eq!((image.details().width(), image.details().height()), (3, 4));

    assert_eq!(loaded(TestLoader::new_stream(8, "pool", 5)).file(), None);
}

#[test]
fn loading_can_fail_twice() {
    let loader = TestLoader::new("file", "pool", 5);
    let first: Result<ProcessBasics<&str, u16>, &str> = Err("no process");
    assert!(matches!(
        loader.load(first),
        Err(LoadError::NoContext("no process"))
    ));

    let loader = TestLoader::new("file", "pool", 5);
    let first: Result<ProcessBasics<&str, u16>, &str> = Ok(basics(Some(1)));
    let (loading, _): (Loading<_, _, _, _, _>, u16) = loader.load(first).ok().unwrap();
    assert!(matches!(
        loading.finish(Err("broken")),
        Err(LoadError::Context("broken"))
    ));
}

#[test]
fn frames_are_requested() {
    let image = loaded(TestLoader::new("file", "pool", 5));
    let (process, request) = image.next_frame();
    assert_eq!(*process, "process");
    assert_eq!((request.scale, request.clip), (None, None));

    let wanted = FrameRequest::new().scale(10, 20).clip(1, 2, 3, 4);
    let (process, request) = image.specific_frame(wanted);
    assert_eq!(*process, "process");
    assert_eq!(request.scale, Some((10, 20)));
    assert_eq!(request.clip, Some((1, 2, 3, 4)));
}

#[test]
fn answers_are_passed_on() {
    let image = loaded(TestLoader::new("file", "pool", 5));
    let answered: Result<Frame, &str> = Ok(frame());
    assert_eq!(image.frame_loaded(answered).ok().unwrap().stride(), 3);
    let refused: Result<Frame, &str> = Err("no more frames");
    assert!(matches!(
        image.frame_loaded(refused),
        Err(LoadError::Context("no more frames"))
    ));
}

#[test]
fn frame_requests_can_be_changed() {
    let request = FrameRequest::new().scale(10, 20).clip(1, 2, 3, 4);
    assert_eq!(request, FrameRequest::default().clip(1, 2, 3, 4).scale(10, 20));
    assert_eq!(request.scale(5, 6).request.scale, Some((5, 6)));
    assert_eq!(request.scale(5, 6).request.clip, Some((1, 2, 3, 4)));
}

#[test]
fn details_of_images() {
    let mut inner = utils::ImageDetails::new(3, 4);
    inner.dimensions_inch = Some((2.5f64.to_bits(), 1f64.to_bits()));
    inner.info_format_name = Some("PNG".to_string());
    inner.info_dimensions_text = Some("3 × 4".to_string());
    inner.metadata_exif = Some(BinaryData::from_data(vec![1]));
    inner.metadata_orientation = Some(6);
    inner.metadata_xmp = Some(BinaryData::from_data(vec![2]));
    inner.metadata_key_value = Some(BTreeMap::from([("Title".to_string(), "x".to_string())]));
    inner.transformation_ignore_exif = true;

    let mut image = loaded(TestLoader::new("file", "pool", 5));
    image.details = Arc::new(inner);
    let details = image.details().clone();
    let (width, height) = details.dimensions_inch().unwrap();
    assert_eq!((f64::from_bits(width), f64::from_bits(height)), (2.5, 1.));
    assert_eq!(details.info_format_name(), Some("PNG"));
    assert_eq!(details.info_dimensions_text(), Some("3 × 4"));
    assert_eq!(details.metadata_exif().unwrap().get_full(), Some(vec![1]));
    assert_eq!(details.metadata_orientation(), Some(6));
    assert_eq!(details.metadata_xmp().unwrap().get_full(), Some(vec![2]));
    assert_eq!(details.metadata_key_value().unwrap()["Title"], "x");
    assert!(details.transformation_ignore_exif());

    let nothing = loaded(TestLoader::new("file", "pool", 5)).details();
    assert_eq!(nothing.info_format_name(), None);
    assert_eq!(nothing.info_dimensions_text(), None);
    assert!(nothing.metadata_exif().is_none());
    assert!(nothing.metadata_xmp().is_none());
    assert!(nothing.metadata_key_value().is_none());
}

#[test]
fn properties_of_frames() {
    let frame = frame();
    assert_eq!(*frame.buf_bytes(), [1, 2, 3]);
    assert_eq!(frame.buf_slice(), [1, 2, 3]);
    assert_eq!((frame.width(), frame.height(), frame.stride()), (1, 1, 3));
    assert_eq!(frame.memory_format(), MemoryFormat::R8g8b8);
    assert!(matches!(frame.color_state(), ColorState::Srgb));
    assert_eq!(frame.delay(), Some(Duration::from_millis(40)));
    let details = frame.details().clone();
    assert_eq!(details.info_bit_depth(), Some(16));
    assert_eq!(details.info_alpha_channel(), None);
    assert_eq!(details.info_grayscale(), None);
    assert_eq!(details.n_frame(), None);
    assert!(details.color_icc_profile().is_none());
    assert_eq!(details.color_cicp(), None);
}

#[test]
fn textures_of_frames() {
    let supported: Result<&str, ()> = Ok("rec2020");
    let texture = frame().texture(supported, "srgb");
    assert_eq!(*texture.bytes, [1, 2, 3]);
    assert_eq!((texture.width, texture.height, texture.stride), (1, 1, 3));
    assert_eq!(texture.format, MemoryFormat::R8g8b8);
    assert_eq!(texture.color_state, "rec2020");
    assert_eq!(frame().texture(Err(()), "srgb").color_state, "srgb");
}

#[test]
fn color_codes_of_frames() {
    let with_codes = |codes: [u8; 4]| {
        let mut inner = utils::FrameDetails::default();
        inner.color_cicp = Some(codes);
        FrameDetails {
            inner: Arc::new(inner),
        }
        .color_cicp()
    };
    assert_eq!(
        with_codes([9, 16, 0, 1]),
        Some(Cicp {
            color_primaries: ColorPrimaries::Rec2020,
            transfer_characteristics: TransferCharacteristics::Pq,
            matrix_coefficients: MatrixCoefficients::Identity,
            video_full_range_flag: VideoRangeFlag::Full,
        })
    );
    assert_eq!(
        with_codes([1, 13, 99, 0]),
        Some(Cicp {
            color_primaries: ColorPrimaries::Srgb,
            transfer_characteristics: TransferCharacteristics::Gamma24,
            matrix_coefficients: MatrixCoefficients::Unknown(99),
            video_full_range_flag: VideoRangeFlag::Narrow,
        })
    );
    assert_eq!(with_codes([9, 8, 0, 1]), Some(Cicp::REC2020_LINEAR));
    assert_eq!(with_codes([9, 16, 0, 2]), None);
}

#[test]
fn supported_media_types() {
    let configured = vec![
        (MimeType("image/png".to_string()), 1),
        (MimeType("image/gif".to_string()), 2),
    ];
    let supported: Vec<String> = TestLoader::supported_mime_types(&configured)
        .into_iter()
        .map(|mime_type| mime_type.0)
        .collect();
    assert_eq!(supported, ["image/png", "image/gif"]);
    assert_eq!(TestLoader::DEFAULT_MIME_TYPES.len(), 23);
    assert_eq!(TestLoader::DEFAULT_MIME_TYPES[20], "image/jxl");
}
